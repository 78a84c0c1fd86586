//! Text primitives that the dashboard's rules are stated over.

use vstd::prelude::*;
use vstd::string::*;

verus! {

/// Whether `c` has Unicode's White_Space property, as `char::is_whitespace`
/// reports it.
pub uninterp spec fn white_space(c: char) -> bool;

/// Index of the first character of `s` that is not white space, or the
/// length of `s` when there is none.
pub open spec fn trim_start(s: Seq<char>) -> int
    decreases s.len(),
{
    if s.len() > 0 && white_space(s[0]) {
        1 + trim_start(s.drop_first())
    } else {
        0
    }
}

/// Index just past the last character of `s` that is not white space, or 0
/// when there is none.
pub open spec fn trim_end(s: Seq<char>) -> int
    decreases s.len(),
{
    if s.len() > 0 && white_space(s.last()) {
        trim_end(s.drop_last())
    } else {
        s.len() as int
    }
}

/// `s` without its leading and trailing white space.
pub open spec fn trimmed(s: Seq<char>) -> Seq<char> {
    if trim_start(s) < trim_end(s) {
        s.subrange(trim_start(s), trim_end(s))
    } else {
        Seq::empty()
    }
}

/// `char::is_whitespace`: the result is the White_Space property of `c`,
/// which this crate does not define but names.
#[verifier::external_body]
pub(crate) fn is_whitespace(c: char) -> (b: bool)
    ensures
        b == white_space(c),
{
    c.is_whitespace()
}

/// The white space at the start of `s` ends at `k` where white space
/// stands before `k` and none at `k`, or `k` is the end.
pub proof fn lemma_trim_start_is(s: Seq<char>, k: int)
    requires
        0 <= k <= s.len(),
        forall|j: int| 0 <= j < k ==> white_space(#[trigger] s[j]),
        k < s.len() ==> !white_space(s[k]),
    ensures
        trim_start(s) == k,
    decreases k,
{
    if k > 0 {
        let t = s.drop_first();
        assert forall|j: int| 0 <= j < k - 1 implies white_space(#[trigger] t[j]) by {
            assert(t[j] == s[j + 1]);
        }
        lemma_trim_start_is(t, k - 1);
    }
}

/// Removes leading and trailing white space.
pub fn trim(s: &str) -> (r: &str)
    ensures
        r@ == trimmed(s@),
{
    let n = s.unicode_len();
    let mut start: usize = 0;
    let mut seen: bool = false;
    let mut end: usize = 0;
    let mut i: usize = 0;
    for c in it: s.chars()
        invariant
            n == s@.len(),
            it.seq() == s@,
            i == it.index(),
            i <= n,
            end == trim_end(s@.take(i as int)),
            end <= i,
            seen ==> start < i && !white_space(s@[start as int]),
            seen ==> forall|j: int| 0 <= j < start ==> white_space(#[trigger] s@[j]),
            !seen ==> forall|j: int| 0 <= j < i ==> white_space(#[trigger] s@[j]),
    {
        assert(s@.take(i + 1).last() == s@[i as int]);
        assert(s@.take(i + 1).drop_last() == s@.take(i as int));
        if !is_whitespace(c) {
            if !seen {
                seen = true;
                start = i;
            }
            end = i + 1;
        }
        i = i + 1;
    }
    proof {
        assert(s@.take(n as int) == s@);
        if seen {
            lemma_trim_start_is(s@, start as int);
        } else {
            lemma_trim_start_is(s@, n as int);
        }
    }
    if seen && start < end {
        s.substring_char(start, end)
    } else {
        s.substring_char(0, 0)
    }
}

/// `String::push`: the string afterwards is the string before with `c`
/// appended.
#[verifier::external_body]
pub(crate) fn push_char(s: &mut String, c: char)
    ensures
        final(s)@ == old(s)@.push(c),
{
    s.push(c)
}

/// `s` without its last character, if it has one.
pub fn without_last(s: &str) -> (out: String)
    ensures
        out@ == if s@.len() > 0 {
            s@.drop_last()
        } else {
            s@
        },
{
    let n = s.unicode_len();
    if n > 0 {
        proof {
            assert(s@.subrange(0, n - 1) =~= s@.drop_last());
        }
        s.substring_char(0, n - 1).to_owned()
    } else {
        s.to_owned()
    }
}

/// Index of the first `sep` in `s`, or the length of `s` when it holds
/// none.
pub open spec fn first_sep(s: Seq<char>, sep: char) -> int
    decreases s.len(),
{
    if s.len() > 0 && s[0] != sep {
        1 + first_sep(s.drop_first(), sep)
    } else {
        0
    }
}

/// A line without the carriage return that stood before its line feed.
pub open spec fn strip_cr(line: Seq<char>) -> Seq<char> {
    if line.len() > 0 && line.last() == '\r' {
        line.drop_last()
    } else {
        line
    }
}

/// The lines of `s`: it is cut at each line feed, a carriage return right
/// before a line feed goes with it, and what follows the last line feed is
/// a line only if it is not empty.
pub open spec fn lines_of(s: Seq<char>) -> Seq<Seq<char>>
    decreases s.len(),
{
    let k = first_sep(s, '\n');
    if s.len() == 0 {
        Seq::empty()
    } else if 0 <= k < s.len() {
        seq![strip_cr(s.take(k))] + lines_of(s.skip(k + 1))
    } else {
        seq![s]
    }
}

/// The first `sep` stands at `k` where none stands before `k` and one
/// stands at `k`, or `k` is the end.
pub proof fn lemma_first_sep_is(s: Seq<char>, sep: char, k: int)
    requires
        0 <= k <= s.len(),
        forall|j: int| 0 <= j < k ==> #[trigger] s[j] != sep,
        k < s.len() ==> s[k] == sep,
    ensures
        first_sep(s, sep) == k,
    decreases k,
{
    if k > 0 {
        let t = s.drop_first();
        assert forall|j: int| 0 <= j < k - 1 implies #[trigger] t[j] != sep by {
            assert(t[j] == s[j + 1]);
        }
        lemma_first_sep_is(t, sep, k - 1);
    }
}

/// Where the first `sep` stands, one stands, and none before it.
pub proof fn lemma_first_sep(s: Seq<char>, sep: char)
    ensures
        0 <= first_sep(s, sep) <= s.len(),
        first_sep(s, sep) < s.len() ==> s[first_sep(s, sep)] == sep,
        forall|j: int| 0 <= j < first_sep(s, sep) ==> s[j] != sep,
    decreases s.len(),
{
    if s.len() > 0 && s[0] != sep {
        let rest = s.drop_first();
        lemma_first_sep(rest, sep);
        assert forall|j: int| 0 <= j < first_sep(s, sep) implies s[j] != sep by {
            if j > 0 {
                assert(rest[j - 1] == s[j]);
            }
        }
    }
}

/// Splits `text` into its lines.
pub fn lines(text: &str) -> (out: Vec<String>)
    ensures
        out.deep_view() == lines_of(text@),
{
    let n = text.unicode_len();
    let mut out: Vec<String> = Vec::new();
    let mut cur = String::new();
    let mut held_cr: bool = false;
    let mut from: usize = 0;
    let mut i: usize = 0;
    proof {
        assert(text@.skip(0) == text@);
        assert(out.deep_view() =~= Seq::<Seq<char>>::empty());
    }
    for c in it: text.chars()
        invariant
            n == text@.len(),
            it.seq() == text@,
            i == it.index(),
            from <= i <= n,
            forall|j: int| from <= j < i ==> #[trigger] text@[j] != '\n',
            text@.subrange(from as int, i as int) == if held_cr {
                cur@.push('\r')
            } else {
                cur@
            },
            !held_cr && cur@.len() > 0 ==> cur@.last() != '\r',
            lines_of(text@) == out.deep_view() + lines_of(text@.skip(from as int)),
    {
        let ghost rest = text@.skip(from as int);
        let ghost before = out.deep_view();
        proof {
            assert(text@.subrange(from as int, i + 1) == text@.subrange(from as int, i as int).push(c));
        }
        if c == '\n' {
            proof {
                assert forall|j: int| 0 <= j < i - from implies #[trigger] rest[j] != '\n' by {
                    assert(rest[j] == text@[from + j]);
                }
                lemma_first_sep_is(rest, '\n', i - from);
                assert(rest.take(i - from) == text@.subrange(from as int, i as int));
                assert(rest.skip(i - from + 1) == text@.skip(i + 1));
                assert(strip_cr(rest.take(i - from)) == cur@) by {
                    if held_cr {
                        assert(cur@.push('\r').drop_last() == cur@);
                    }
                }
            }
            out.push(cur);
            proof {
                assert(out.deep_view() =~= before.push(cur@));
                assert(before + (seq![cur@] + lines_of(text@.skip(i + 1))) =~= before.push(cur@)
                    + lines_of(text@.skip(i + 1)));
            }
            cur = String::new();
            held_cr = false;
            from = i + 1;
            proof {
                assert(text@.subrange(from as int, from as int) =~= Seq::<char>::empty());
            }
        } else {
            if held_cr {
                push_char(&mut cur, '\r');
            }
            if c == '\r' {
                held_cr = true;
            } else {
                push_char(&mut cur, c);
                held_cr = false;
            }
        }
        i = i + 1;
    }
    let ghost rest = text@.skip(from as int);
    let ghost before = out.deep_view();
    proof {
        assert forall|j: int| 0 <= j < n - from implies #[trigger] rest[j] != '\n' by {
            assert(rest[j] == text@[from + j]);
        }
        lemma_first_sep_is(rest, '\n', n - from);
        assert(rest == text@.subrange(from as int, n as int));
    }
    if from < n {
        if held_cr {
            push_char(&mut cur, '\r');
        }
        out.push(cur);
        proof {
            assert(out.deep_view() =~= before.push(rest));
            assert(before + seq![rest] =~= before.push(rest));
        }
    } else {
        proof {
            assert(before + Seq::<Seq<char>>::empty() =~= before);
        }
    }
    out
}

/// The trimmed forms of `lines` that are not empty, in order.
pub open spec fn nonempty_trimmed(lines: Seq<Seq<char>>) -> Seq<Seq<char>>
    decreases lines.len(),
{
    if lines.len() == 0 {
        Seq::empty()
    } else {
        let head = nonempty_trimmed(lines.drop_last());
        let t = trimmed(lines.last());
        if t.len() > 0 {
            head.push(t)
        } else {
            head
        }
    }
}

/// The first line of `text` that holds more than white space, trimmed.
pub open spec fn first_nonempty(text: Seq<char>) -> Option<Seq<char>> {
    let kept = nonempty_trimmed(lines_of(text));
    if kept.len() > 0 {
        Some(kept[0])
    } else {
        None
    }
}

/// What was kept of a prefix of the lines is a prefix of what is kept of
/// all of them.
pub proof fn lemma_nonempty_trimmed_prefix(lines: Seq<Seq<char>>, k: int)
    requires
        0 <= k <= lines.len(),
    ensures
        nonempty_trimmed(lines.take(k)).is_prefix_of(nonempty_trimmed(lines)),
    decreases lines.len(),
{
    if k == lines.len() {
        assert(lines.take(k) == lines);
    } else {
        lemma_nonempty_trimmed_prefix(lines.drop_last(), k);
        assert(lines.drop_last().take(k) == lines.take(k));
    }
}

/// The lines of `text` that hold more than white space, each trimmed.
pub fn nonempty_lines(text: &str) -> (out: Vec<String>)
    ensures
        out.deep_view() == nonempty_trimmed(lines_of(text@)),
{
    let all = lines(text);
    let mut out: Vec<String> = Vec::new();
    let mut i: usize = 0;
    proof {
        assert(out.deep_view() =~= Seq::<Seq<char>>::empty());
    }
    while i < all.len()
        invariant
            i <= all.len(),
            out.deep_view() == nonempty_trimmed(all.deep_view().take(i as int)),
        decreases all.len() - i,
    {
        let ghost before = out.deep_view();
        let t = trim(all[i].as_str());
        proof {
            assert(all.deep_view().take(i + 1).drop_last() == all.deep_view().take(i as int));
            assert(all.deep_view().take(i + 1).last() == all[i as int]@);
        }
        if !t.is_empty() {
            out.push(t.to_owned());
            proof {
                assert(out.deep_view() =~= before.push(t@));
            }
        }
        i = i + 1;
    }
    proof {
        assert(all.deep_view().take(all.len() as int) == all.deep_view());
    }
    out
}

/// The first line of `text` that holds more than white space, trimmed.
pub fn first_nonempty_line(text: &str) -> (found: Option<String>)
    ensures
        found.deep_view() == first_nonempty(text@),
{
    let all = lines(text);
    let mut i: usize = 0;
    while i < all.len()
        invariant
            i <= all.len(),
            all.deep_view() == lines_of(text@),
            nonempty_trimmed(all.deep_view().take(i as int)).len() == 0,
        decreases all.len() - i,
    {
        let t = trim(all[i].as_str());
        proof {
            assert(all.deep_view().take(i + 1).drop_last() == all.deep_view().take(i as int));
            assert(all.deep_view().take(i + 1).last() == all[i as int]@);
        }
        if !t.is_empty() {
            proof {
                lemma_nonempty_trimmed_prefix(all.deep_view(), i + 1);
                assert(nonempty_trimmed(all.deep_view().take(i + 1))[0] == t@);
            }
            return Some(t.to_owned());
        }
        i = i + 1;
    }
    proof {
        assert(all.deep_view().take(all.len() as int) == all.deep_view());
    }
    None
}

/// Whether `s` holds nothing but white space.
pub fn is_blank(s: &str) -> (blank: bool)
    ensures
        blank == (trimmed(s@).len() == 0),
{
    trim(s).is_empty()
}

/// Whether two strings hold the same characters.
pub fn same_text(a: &str, b: &str) -> (same: bool)
    ensures
        same == (a@ == b@),
{
    let x = a.as_bytes();
    let y = b.as_bytes();
    proof {
        vstd::utf8::encode_utf8_decode_utf8(a@);
        vstd::utf8::encode_utf8_decode_utf8(b@);
    }
    if x.len() != y.len() {
        return false;
    }
    let mut i: usize = 0;
    while i < x.len()
        invariant
            i <= x.len(),
            x.len() == y.len(),
            x@ == vstd::utf8::encode_utf8(a@),
            y@ == vstd::utf8::encode_utf8(b@),
            forall|j: int| 0 <= j < i ==> x@[j] == y@[j],
        decreases x.len() - i,
    {
        if x[i] != y[i] {
            return false;
        }
        i = i + 1;
    }
    proof {
        assert(x@ =~= y@);
    }
    true
}

/// The character of a decimal digit.
pub open spec fn digit_char(d: int) -> char {
    if d == 0 {
        '0'
    } else if d == 1 {
        '1'
    } else if d == 2 {
        '2'
    } else if d == 3 {
        '3'
    } else if d == 4 {
        '4'
    } else if d == 5 {
        '5'
    } else if d == 6 {
        '6'
    } else if d == 7 {
        '7'
    } else if d == 8 {
        '8'
    } else {
        '9'
    }
}

/// The decimal digits of `n`, most significant first, without leading
/// zeros.
pub open spec fn decimal(n: nat) -> Seq<char>
    decreases n,
{
    if n < 10 {
        seq![digit_char(n as int)]
    } else {
        decimal(n / 10).push(digit_char((n % 10) as int))
    }
}

fn digit_of(d: u64) -> (c: char)
    requires
        d < 10,
    ensures
        c == digit_char(d as int),
{
    if d == 0 {
        '0'
    } else if d == 1 {
        '1'
    } else if d == 2 {
        '2'
    } else if d == 3 {
        '3'
    } else if d == 4 {
        '4'
    } else if d == 5 {
        '5'
    } else if d == 6 {
        '6'
    } else if d == 7 {
        '7'
    } else if d == 8 {
        '8'
    } else {
        '9'
    }
}

/// Writes `n` in decimal.
pub fn decimal_of(n: u64) -> (out: String)
    ensures
        out@ == decimal(n as nat),
{
    let mut low: Vec<char> = Vec::new();
    let mut m: u64 = n;
    while m >= 10
        invariant
            decimal(n as nat) == decimal(m as nat) + low@.reverse(),
        decreases m,
    {
        let ghost before = low@;
        low.push(digit_of(m % 10));
        proof {
            assert(low@.reverse() =~= seq![digit_char((m % 10) as int)] + before.reverse());
            assert(decimal(m as nat) == decimal((m / 10) as nat).push(digit_char((m % 10) as int)));
            assert(decimal((m / 10) as nat).push(digit_char((m % 10) as int)) + before.reverse()
                =~= decimal((m / 10) as nat) + low@.reverse());
        }
        m = m / 10;
    }
    let mut out = String::new();
    push_char(&mut out, digit_of(m));
    let mut k: usize = low.len();
    while k > 0
        invariant
            k <= low.len(),
            out@ == decimal(m as nat) + low@.reverse().take(low.len() - k),
        decreases k,
    {
        k = k - 1;
        push_char(&mut out, low[k]);
        proof {
            let r = low@.reverse();
            assert(r[low.len() - 1 - k] == low@[k as int]);
            assert(r.take(low.len() - k) =~= r.take(low.len() - 1 - k).push(low@[k as int]));
        }
    }
    proof {
        assert(low@.reverse().take(low.len() as int) == low@.reverse());
    }
    out
}

/// Writes `n` in decimal.
pub fn decimal_string(n: usize) -> (out: String)
    ensures
        out@ == decimal(n as nat),
{
    decimal_of(n as u64)
}

/// `a` followed by `b`.
pub fn join2(a: &str, b: &str) -> (out: String)
    ensures
        out@ == a@ + b@,
{
    let mut out = a.to_owned();
    out.append(b);
    out
}

/// `a`, `b` and `c` in a row.
pub fn join3(a: &str, b: &str, c: &str) -> (out: String)
    ensures
        out@ == a@ + b@ + c@,
{
    let mut out = a.to_owned();
    out.append(b);
    out.append(c);
    out
}

/// A copy of a list of strings.
pub fn clone_strings(v: &Vec<String>) -> (out: Vec<String>)
    ensures
        out.deep_view() == v.deep_view(),
{
    let mut out: Vec<String> = Vec::new();
    let mut i: usize = 0;
    while i < v.len()
        invariant
            i <= v.len(),
            out.len() == i,
            forall|j: int| 0 <= j < i ==> out[j]@ == v[j]@,
        decreases v.len() - i,
    {
        out.push(v[i].clone());
        i = i + 1;
    }
    proof {
        assert(out.deep_view() =~= v.deep_view());
    }
    out
}

/// A copy of a string that may be absent.
pub fn clone_opt_string(o: &Option<String>) -> (out: Option<String>)
    ensures
        out.deep_view() == o.deep_view(),
{
    match o {
        Some(s) => Some(s.clone()),
        None => None,
    }
}

/// A copy of a list of strings that may be absent.
pub fn clone_opt_strings(o: &Option<Vec<String>>) -> (out: Option<Vec<String>>)
    ensures
        out.deep_view() == o.deep_view(),
{
    match o {
        Some(v) => Some(clone_strings(v)),
        None => None,
    }
}

/// The characters of a string.
pub fn chars_of(s: &str) -> (out: Vec<char>)
    ensures
        out@ == s@,
{
    let mut out: Vec<char> = Vec::new();
    for c in it: s.chars()
        invariant
            it.seq() == s@,
            out@ == s@.take(it.index() as int),
    {
        proof {
            assert(s@.take(it.index() + 1) == s@.take(it.index() as int).push(c));
        }
        out.push(c);
    }
    proof {
        assert(s@.take(s@.len() as int) == s@);
    }
    out
}

/// The string of the characters of `chars` from `from` up to `to`.
pub(crate) fn string_of(chars: &Vec<char>, from: usize, to: usize) -> (out: String)
    requires
        from <= to <= chars.len(),
    ensures
        out@ == chars@.subrange(from as int, to as int),
{
    let mut out = String::new();
    let mut i: usize = from;
    proof {
        assert(chars@.subrange(from as int, from as int) =~= Seq::<char>::empty());
    }
    while i < to
        invariant
            from <= i <= to <= chars.len(),
            out@ == chars@.subrange(from as int, i as int),
        decreases to - i,
    {
        push_char(&mut out, chars[i]);
        proof {
            assert(chars@.subrange(from as int, i + 1) =~= chars@.subrange(
                from as int,
                i as int,
            ).push(chars@[i as int]));
        }
        i = i + 1;
    }
    out
}

} // verus!
