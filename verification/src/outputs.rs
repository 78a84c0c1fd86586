//! What the outputs of the package manager say: the pieces that the
//! gateway computes from the text that its commands printed.

use vstd::prelude::*;
use vstd::string::*;

use crate::gateway::{CommandResult, CommandResultView, StatusSnapshot, StatusSnapshotView};
use crate::matching::contains_name;
use crate::reducers::first_of;
use crate::text::{
    chars_of, first_nonempty, first_nonempty_line, first_sep, is_whitespace,
    lemma_first_sep_is, lemma_trim_start_is, lines, lines_of, nonempty_lines,
    nonempty_trimmed, string_of, trim, trim_start, trimmed, white_space,
};

verus! {

/// The message of a command that failed: what it wrote to its error
/// output, trimmed, or `fallback` where it wrote nothing.
pub open spec fn failure_text(stderr: Seq<char>, fallback: Seq<char>) -> Seq<char> {
    if trimmed(stderr).len() == 0 {
        fallback
    } else {
        trimmed(stderr)
    }
}

/// The message of a command that failed.
pub fn failure_message(stderr: &str, fallback: &str) -> (message: String)
    ensures
        message@ == failure_text(stderr@, fallback@),
{
    let said = trim(stderr);
    if said.is_empty() {
        fallback.to_owned()
    } else {
        said.to_owned()
    }
}

/// The value of a decimal digit, if `c` is one.
pub open spec fn digit_value(c: char) -> Option<nat> {
    if '0' <= c <= '9' {
        Some((c as nat - '0' as nat) as nat)
    } else {
        None
    }
}

/// The number that a row of decimal digits writes, if all of them are
/// digits. The empty row writes nothing.
pub open spec fn digits_value(s: Seq<char>) -> Option<nat>
    decreases s.len(),
{
    if s.len() == 0 {
        None
    } else if s.len() == 1 {
        digit_value(s[0])
    } else {
        match (digits_value(s.drop_last()), digit_value(s.last())) {
            (Some(high), Some(low)) => Some(high * 10 + low),
            _ => None,
        }
    }
}

/// The number that `s` writes as a `u64`: a row of decimal digits, with a
/// plus sign before it or not, whose value fits.
pub open spec fn parsed_u64(s: Seq<char>) -> Option<u64> {
    let digits = if s.len() > 0 && s[0] == '+' {
        s.drop_first()
    } else {
        s
    };
    match digits_value(digits) {
        Some(n) => if n <= u64::MAX {
            Some(n as u64)
        } else {
            None
        },
        None => None,
    }
}

/// Reads a `u64` from its decimal form.
pub fn parse_u64(s: &str) -> (value: Option<u64>)
    ensures
        value == parsed_u64(s@),
{
    let chars = chars_of(s);
    let start: usize = if chars.len() > 0 && chars[0] == '+' {
        1
    } else {
        0
    };
    let ghost digits = chars@.subrange(start as int, chars.len() as int);
    proof {
        if start == 1 {
            assert(digits =~= chars@.drop_first());
        } else {
            assert(digits =~= chars@);
        }
    }
    if start == chars.len() {
        return None;
    }
    let mut value: u64 = 0;
    let mut i: usize = start;
    while i < chars.len()
        invariant
            start <= i <= chars.len(),
            start < chars.len(),
            chars@ == s@,
            digits == chars@.subrange(start as int, chars.len() as int),
            digits == if s@.len() > 0 && s@[0] == '+' {
                s@.drop_first()
            } else {
                s@
            },
            i > start ==> digits_value(digits.take(i - start)) == Some(value as nat),
            i == start ==> value == 0,
        decreases chars.len() - i,
    {
        let c = chars[i];
        let ghost head = digits.take(i - start);
        let ghost next = digits.take(i - start + 1);
        proof {
            assert(next.drop_last() == head);
            assert(next.last() == c);
        }
        if c < '0' || c > '9' {
            proof {
                assert(digits[i - start] == c);
                lemma_digits_value_none(digits, i - start);
            }
            return None;
        }
        let d: u64 = (c as u32 - '0' as u32) as u64;
        if value > (u64::MAX - d) / 10 {
            proof {
                assert(digit_value(c) == Some(d as nat));
                if i > start {
                    assert(digits_value(next) == Some((value * 10 + d) as nat));
                }
                lemma_digits_value_over(digits, i - start + 1);
            }
            return None;
        }
        proof {
            assert(digit_value(c) == Some(d as nat));
            assert(digits_value(next) == Some((value * 10 + d) as nat));
        }
        value = value * 10 + d;
        i = i + 1;
    }
    proof {
        assert(digits.take(chars.len() - start) == digits);
    }
    Some(value)
}

proof fn lemma_digits_value_none(s: Seq<char>, k: int)
    requires
        0 <= k < s.len(),
        digit_value(s[k]) is None,
    ensures
        digits_value(s) is None,
    decreases s.len(),
{
    if s.len() > 1 {
        if k < s.len() - 1 {
            lemma_digits_value_none(s.drop_last(), k);
        }
    }
}

proof fn lemma_digits_value_over(s: Seq<char>, k: int)
    requires
        1 <= k <= s.len(),
        digits_value(s.take(k)) is Some ==> digits_value(s.take(k))->0 > u64::MAX,
    ensures
        digits_value(s) is Some ==> digits_value(s)->0 > u64::MAX,
    decreases s.len() - k,
{
    if k < s.len() {
        assert(s.take(k + 1).drop_last() == s.take(k));
        lemma_digits_value_over(s, k + 1);
    } else {
        assert(s.take(k) == s);
    }
}

/// The piece of `s` with the number `n`, counted from 0, where `s` is cut
/// at every `sep`; nothing where `s` has fewer pieces.
pub open spec fn piece(s: Seq<char>, sep: char, n: nat) -> Option<Seq<char>>
    decreases n,
{
    let k = first_sep(s, sep);
    if n == 0 {
        Some(
            if 0 <= k < s.len() {
                s.take(k)
            } else {
                s
            },
        )
    } else if 0 <= k < s.len() {
        piece(s.skip(k + 1), sep, (n - 1) as nat)
    } else {
        None
    }
}

/// The number that a piece writes, or 0 where there is no piece or it
/// writes none.
pub open spec fn number_or_zero(p: Option<Seq<char>>) -> u64 {
    match p {
        Some(text) => match parsed_u64(text) {
            Some(n) => n,
            None => 0,
        },
        None => 0,
    }
}

/// Major, minor and patch number of a version: the first three pieces,
/// cut at dots, of what stands before the first hyphen; 0 for each that is
/// missing or no number.
pub open spec fn semver_triplet(version: Seq<char>) -> (u64, u64, u64) {
    let core = piece(version, '-', 0)->0;
    (
        number_or_zero(piece(core, '.', 0)),
        number_or_zero(piece(core, '.', 1)),
        number_or_zero(piece(core, '.', 2)),
    )
}

/// Whether the triplet `a` stands after the triplet `b`: by the major
/// number, then the minor, then the patch.
pub open spec fn triplet_after(a: (u64, u64, u64), b: (u64, u64, u64)) -> bool {
    a.0 > b.0 || (a.0 == b.0 && (a.1 > b.1 || (a.1 == b.1 && a.2 > b.2)))
}

fn find_sep(chars: &Vec<char>, from: usize, sep: char) -> (at: usize)
    requires
        from <= chars.len(),
    ensures
        from <= at <= chars.len(),
        at - from == first_sep(chars@.skip(from as int), sep),
{
    let mut at: usize = from;
    while at < chars.len() && chars[at] != sep
        invariant
            from <= at <= chars.len(),
            forall|j: int| from <= j < at ==> chars@[j] != sep,
        decreases chars.len() - at,
    {
        at = at + 1;
    }
    proof {
        let rest = chars@.skip(from as int);
        assert forall|j: int| 0 <= j < at - from implies #[trigger] rest[j] != sep by {
            assert(rest[j] == chars@[from + j]);
        }
        lemma_first_sep_is(rest, sep, at - from);
    }
    at
}

fn nth_piece(chars: &Vec<char>, sep: char, n: usize) -> (range: Option<(usize, usize)>)
    ensures
        match range {
            Some(r) => r.0 <= r.1 <= chars.len() && piece(chars@, sep, n as nat) == Some(
                chars@.subrange(r.0 as int, r.1 as int),
            ),
            None => piece(chars@, sep, n as nat) is None,
        },
{
    let mut from: usize = 0;
    let mut left: usize = n;
    proof {
        assert(chars@.skip(0) == chars@);
    }
    loop
        invariant
            from <= chars.len(),
            piece(chars@, sep, n as nat) == piece(chars@.skip(from as int), sep, left as nat),
        decreases left,
    {
        let at = find_sep(chars, from, sep);
        let ghost rest = chars@.skip(from as int);
        if left == 0 {
            proof {
                assert(rest.take(at - from) == chars@.subrange(from as int, at as int));
                if at == chars.len() {
                    assert(rest == chars@.subrange(from as int, at as int));
                }
            }
            return Some((from, at));
        }
        if at == chars.len() {
            return None;
        }
        proof {
            assert(rest.skip(at - from + 1) == chars@.skip(at + 1));
        }
        from = at + 1;
        left = left - 1;
    }
}

fn number_of(chars: &Vec<char>, range: Option<(usize, usize)>) -> (n: u64)
    requires
        match range {
            Some(r) => r.0 <= r.1 <= chars.len(),
            None => true,
        },
    ensures
        n == number_or_zero(
            match range {
                Some(r) => Some(chars@.subrange(r.0 as int, r.1 as int)),
                None => None,
            },
        ),
{
    match range {
        Some(r) => {
            let text = string_of(chars, r.0, r.1);
            match parse_u64(text.as_str()) {
                Some(n) => n,
                None => 0,
            }
        },
        None => 0,
    }
}

/// Major, minor and patch number of a version.
pub fn parse_semver_triplet(version: &str) -> (triplet: (u64, u64, u64))
    ensures
        triplet == semver_triplet(version@),
{
    let all = chars_of(version);
    let cut = find_sep(&all, 0, '-');
    proof {
        assert(all@.skip(0) == all@);
    }
    let core_text = string_of(&all, 0, cut);
    let core = chars_of(core_text.as_str());
    proof {
        assert(all@.subrange(0, cut as int) == all@.take(cut as int));
        if cut == all.len() {
            assert(all@.take(cut as int) == all@);
        }
    }
    let major = number_of(&core, nth_piece(&core, '.', 0));
    let minor = number_of(&core, nth_piece(&core, '.', 1));
    let patch = number_of(&core, nth_piece(&core, '.', 2));
    (major, minor, patch)
}

/// Whether the version `latest` stands after the version `current`.
pub fn is_newer_version(latest: &str, current: &str) -> (newer: bool)
    ensures
        newer == triplet_after(semver_triplet(latest@), semver_triplet(current@)),
{
    let a = parse_semver_triplet(latest);
    let b = parse_semver_triplet(current);
    a.0 > b.0 || (a.0 == b.0 && (a.1 > b.1 || (a.1 == b.1 && a.2 > b.2)))
}

/// Whether `text` begins with `prefix`.
pub fn has_prefix(text: &str, prefix: &str) -> (begins: bool)
    ensures
        begins == prefix@.is_prefix_of(text@),
{
    let t = chars_of(text);
    let p = chars_of(prefix);
    chars_begin(&t, 0, &p)
}

fn chars_begin(t: &Vec<char>, from: usize, p: &Vec<char>) -> (begins: bool)
    requires
        from <= t.len(),
    ensures
        begins == p@.is_prefix_of(t@.skip(from as int)),
{
    if p.len() > t.len() - from {
        return false;
    }
    let mut i: usize = 0;
    while i < p.len()
        invariant
            i <= p.len(),
            from + p.len() <= t.len(),
            forall|j: int| 0 <= j < i ==> t@[from + j] == p@[j],
        decreases p.len() - i,
    {
        if t[from + i] != p[i] {
            proof {
                let rest = t@.skip(from as int);
                assert(rest[i as int] == t@[from + i]);
                if p@.is_prefix_of(rest) {
                    assert(rest.subrange(0, p@.len() as int)[i as int] == p@[i as int]);
                }
            }
            return false;
        }
        i = i + 1;
    }
    proof {
        let rest = t@.skip(from as int);
        assert(rest.subrange(0, p@.len() as int) =~= p@);
    }
    true
}

/// Whether a line of the health check reports a finding.
pub open spec fn reports_issue(line: Seq<char>) -> bool {
    "Warning:"@.is_prefix_of(line) || "Error:"@.is_prefix_of(line)
}

/// The lines that report a finding, in order.
pub open spec fn issue_lines(lines: Seq<Seq<char>>) -> Seq<Seq<char>>
    decreases lines.len(),
{
    if lines.len() == 0 {
        Seq::empty()
    } else {
        let head = issue_lines(lines.drop_last());
        if reports_issue(lines.last()) {
            head.push(lines.last())
        } else {
            head
        }
    }
}

/// How many findings of the health check are kept.
pub const ISSUES_KEPT: usize = 5;

/// The findings of a health check that failed: the first five lines that
/// report one, of its error output, or of its standard output where the
/// error output is empty.
pub open spec fn doctor_findings(r: CommandResultView) -> Seq<Seq<char>> {
    first_of(
        issue_lines(
            lines_of(
                if r.stderr.len() == 0 {
                    r.stdout
                } else {
                    r.stderr
                },
            ),
        ),
        ISSUES_KEPT as int,
    )
}

/// The findings of a health check that failed.
pub fn doctor_issues(r: &CommandResult) -> (issues: Vec<String>)
    ensures
        issues.deep_view() == doctor_findings(r@),
{
    let output = if r.stderr.as_str().is_empty() {
        r.stdout.as_str()
    } else {
        r.stderr.as_str()
    };
    let all = lines(output);
    let mut found: Vec<String> = Vec::new();
    let mut i: usize = 0;
    proof {
        assert(found.deep_view() =~= issue_lines(all.deep_view().take(0)));
    }
    while i < all.len()
        invariant
            i <= all.len(),
            found.deep_view() == issue_lines(all.deep_view().take(i as int)),
        decreases all.len() - i,
    {
        let line = all[i].as_str();
        let ghost before = found.deep_view();
        proof {
            assert(all.deep_view().take(i + 1).drop_last() == all.deep_view().take(i as int));
            assert(all.deep_view().take(i + 1).last() == line@);
        }
        if has_prefix(line, "Warning:") || has_prefix(line, "Error:") {
            found.push(line.to_owned());
            proof {
                assert(found.deep_view() =~= before.push(line@));
            }
        }
        i = i + 1;
    }
    proof {
        assert(all.deep_view().take(all.len() as int) == all.deep_view());
    }
    let ghost whole = found.deep_view();
    if found.len() > ISSUES_KEPT {
        found.truncate(ISSUES_KEPT);
        proof {
            assert(found.deep_view() =~= whole.take(ISSUES_KEPT as int));
        }
    }
    found
}

/// After how many seconds without an update the package manager counts as
/// out of date.
pub const UPDATE_DUE_AFTER_SECS: u64 = 86_400;

/// What to say of the last update of the package manager.
pub open spec fn update_status(secs_ago: Option<u64>) -> Seq<char> {
    match secs_ago {
        Some(secs) => if secs <= UPDATE_DUE_AFTER_SECS {
            "Up to date"@
        } else {
            "Update recommended"@
        },
        None => "Unknown"@,
    }
}

/// What to say of the last update of the package manager.
pub fn update_status_text(secs_ago: Option<u64>) -> (text: &'static str)
    ensures
        text@ == update_status(secs_ago),
{
    match secs_ago {
        Some(secs) => {
            if secs <= UPDATE_DUE_AFTER_SECS {
                "Up to date"
            } else {
                "Update recommended"
            }
        },
        None => "Unknown",
    }
}

/// The names of `names` that are among `allowed`, in order.
pub open spec fn kept_names(names: Seq<Seq<char>>, allowed: Seq<Seq<char>>) -> Seq<Seq<char>>
    decreases names.len(),
{
    if names.len() == 0 {
        Seq::empty()
    } else {
        let head = kept_names(names.drop_last(), allowed);
        if allowed.contains(names.last()) {
            head.push(names.last())
        } else {
            head
        }
    }
}

/// The outdated formulae that were installed on request: the names that
/// the list of outdated formulae and the list of leaves both hold.
pub open spec fn outdated_leaves_of(outdated: Seq<char>, leaves: Seq<char>) -> Seq<Seq<char>> {
    kept_names(nonempty_trimmed(lines_of(outdated)), nonempty_trimmed(lines_of(leaves)))
}

/// The outdated formulae that were installed on request.
pub fn outdated_among(outdated: &str, leaves: &str) -> (names: Vec<String>)
    ensures
        names.deep_view() == outdated_leaves_of(outdated@, leaves@),
{
    let all = nonempty_lines(outdated);
    let allowed = nonempty_lines(leaves);
    let mut kept: Vec<String> = Vec::new();
    let mut i: usize = 0;
    proof {
        assert(kept.deep_view() =~= kept_names(all.deep_view().take(0), allowed.deep_view()));
    }
    while i < all.len()
        invariant
            i <= all.len(),
            kept.deep_view() == kept_names(all.deep_view().take(i as int), allowed.deep_view()),
        decreases all.len() - i,
    {
        let name = all[i].as_str();
        let ghost before = kept.deep_view();
        proof {
            assert(all.deep_view().take(i + 1).drop_last() == all.deep_view().take(i as int));
            assert(all.deep_view().take(i + 1).last() == name@);
        }
        if contains_name(&allowed, name) {
            kept.push(name.to_owned());
            proof {
                assert(kept.deep_view() =~= before.push(name@));
            }
        }
        i = i + 1;
    }
    proof {
        assert(all.deep_view().take(all.len() as int) == all.deep_view());
    }
    kept
}

/// Whether a line of the registry's search names the dashboard: after
/// white space, if any, stands its name and a space.
pub open spec fn names_brewery(line: Seq<char>) -> bool {
    "brewery "@.is_prefix_of(line.skip(trim_start(line)))
}

/// The first line that names the dashboard.
pub open spec fn first_brewery_line(lines: Seq<Seq<char>>) -> Option<Seq<char>>
    decreases lines.len(),
{
    if lines.len() == 0 {
        None
    } else if names_brewery(lines[0]) {
        Some(lines[0])
    } else {
        first_brewery_line(lines.drop_first())
    }
}

/// What stands between the first two double quotes of a line, trimmed, if
/// the line has two and something stands between them.
pub open spec fn quoted_version(line: Seq<char>) -> Option<Seq<char>> {
    let open = first_sep(line, '"');
    if 0 <= open < line.len() {
        let rest = line.skip(open + 1);
        let close = first_sep(rest, '"');
        if 0 <= close < rest.len() && trimmed(rest.take(close)).len() > 0 {
            Some(trimmed(rest.take(close)))
        } else {
            None
        }
    } else {
        None
    }
}

/// The latest version of the dashboard that the registry's search
/// reports.
pub open spec fn latest_brewery_version(stdout: Seq<char>) -> Option<Seq<char>> {
    match first_brewery_line(lines_of(stdout)) {
        Some(line) => quoted_version(line),
        None => None,
    }
}

fn line_names_brewery(line: &Vec<char>) -> (names: bool)
    ensures
        names == names_brewery(line@),
{
    let mut start: usize = 0;
    while start < line.len() && is_whitespace(line[start])
        invariant
            start <= line.len(),
            forall|j: int| 0 <= j < start ==> white_space(#[trigger] line@[j]),
        decreases line.len() - start,
    {
        start = start + 1;
    }
    proof {
        lemma_trim_start_is(line@, start as int);
    }
    let name = chars_of("brewery ");
    chars_begin(line, start, &name)
}

fn version_in(line: &Vec<char>) -> (version: Option<String>)
    ensures
        version.deep_view() == quoted_version(line@),
{
    proof {
        assert(line@.skip(0) == line@);
    }
    let open = find_sep(line, 0, '"');
    if open >= line.len() {
        return None;
    }
    let close = find_sep(line, open + 1, '"');
    if close >= line.len() {
        return None;
    }
    let between = string_of(line, open + 1, close);
    proof {
        assert(line@.skip(open + 1).take(close - (open + 1)) == line@.subrange(
            open + 1,
            close as int,
        ));
    }
    let version = trim(between.as_str());
    if version.is_empty() {
        None
    } else {
        Some(version.to_owned())
    }
}

/// The latest version of the dashboard that the registry's search
/// reports.
pub fn parse_latest_brewery_version(stdout: &str) -> (version: Option<String>)
    ensures
        version.deep_view() == latest_brewery_version(stdout@),
{
    let all = lines(stdout);
    let mut i: usize = 0;
    proof {
        assert(all.deep_view().skip(0) == all.deep_view());
    }
    while i < all.len()
        invariant
            i <= all.len(),
            all.deep_view() == lines_of(stdout@),
            first_brewery_line(all.deep_view()) == first_brewery_line(
                all.deep_view().skip(i as int),
            ),
        decreases all.len() - i,
    {
        let line = chars_of(all[i].as_str());
        proof {
            assert(all.deep_view().skip(i as int)[0] == line@);
            assert(all.deep_view().skip(i as int).drop_first() == all.deep_view().skip(i + 1));
        }
        if line_names_brewery(&line) {
            return version_in(&line);
        }
        i = i + 1;
    }
    None
}

/// What the commands of a status check brought back. A command that could
/// not be run brought back nothing.
pub struct StatusInput {
    /// The version of the package manager.
    pub version: Option<CommandResult>,
    /// Its summary of what is installed.
    pub info: Option<CommandResult>,
    /// The formulae that were installed on request.
    pub leaves: Option<CommandResult>,
    /// Its health check.
    pub doctor: Option<CommandResult>,
    /// The outdated formulae.
    pub outdated: Option<CommandResult>,
    /// How long ago the package manager was last updated, in seconds.
    pub last_update_secs_ago: Option<u64>,
    /// The latest version of the dashboard, if known.
    pub latest_version: Option<String>,
    /// The version of the dashboard that runs.
    pub current_version: String,
}

/// The mathematical value of a [`StatusInput`].
pub struct StatusInputView {
    pub version: Option<CommandResultView>,
    pub info: Option<CommandResultView>,
    pub leaves: Option<CommandResultView>,
    pub doctor: Option<CommandResultView>,
    pub outdated: Option<CommandResultView>,
    pub last_update_secs_ago: Option<u64>,
    pub latest_version: Option<Seq<char>>,
    pub current_version: Seq<char>,
}

impl View for StatusInput {
    type V = StatusInputView;

    open spec fn view(&self) -> StatusInputView {
        StatusInputView {
            version: self.version.deep_view(),
            info: self.info.deep_view(),
            leaves: self.leaves.deep_view(),
            doctor: self.doctor.deep_view(),
            outdated: self.outdated.deep_view(),
            last_update_secs_ago: self.last_update_secs_ago,
            latest_version: self.latest_version.deep_view(),
            current_version: self.current_version@,
        }
    }
}

/// The first line of what a command printed, if it succeeded.
pub open spec fn headline(r: Option<CommandResultView>) -> Option<Seq<char>> {
    match r {
        Some(ran) => if ran.success {
            first_nonempty(ran.stdout)
        } else {
            None
        },
        None => None,
    }
}

/// What a command printed, or nothing where it could not be run.
pub open spec fn printed(r: Option<CommandResultView>) -> Seq<char> {
    match r {
        Some(ran) => ran.stdout,
        None => Seq::empty(),
    }
}

/// The status snapshot that the commands of a status check amount to.
pub open spec fn status_of(input: StatusInputView) -> StatusSnapshotView {
    let outdated = outdated_leaves_of(printed(input.outdated), printed(input.leaves));
    StatusSnapshotView {
        doctor_ok: match input.doctor {
            Some(ran) => Some(ran.success),
            None => None,
        },
        doctor_issues: match input.doctor {
            Some(ran) => if ran.success {
                Seq::empty()
            } else {
                doctor_findings(ran)
            },
            None => Seq::empty(),
        },
        outdated_count: if input.outdated is Some {
            Some(outdated.len() as usize)
        } else {
            None
        },
        outdated_packages: if input.outdated is Some {
            outdated
        } else {
            Seq::empty()
        },
        brew_version: headline(input.version),
        brew_info: headline(input.info),
        brew_update_status: Some(update_status(input.last_update_secs_ago)),
        last_brew_update_secs_ago: input.last_update_secs_ago,
        brewery_latest_version: input.latest_version,
        brewery_update_available: match input.latest_version {
            Some(latest) => triplet_after(
                semver_triplet(latest),
                semver_triplet(input.current_version),
            ),
            None => false,
        },
    }
}

fn headline_of(r: &Option<CommandResult>) -> (line: Option<String>)
    ensures
        line.deep_view() == headline(r.deep_view()),
{
    match r {
        Some(ran) => {
            if ran.success {
                first_nonempty_line(ran.stdout.as_str())
            } else {
                None
            }
        },
        None => None,
    }
}

fn printed_by(r: &Option<CommandResult>) -> (text: &str)
    ensures
        text@ == printed(r.deep_view()),
{
    proof {
        reveal_strlit("");
        assert(""@ =~= Seq::<char>::empty());
    }
    match r {
        Some(ran) => ran.stdout.as_str(),
        None => "",
    }
}

/// Puts together the status snapshot from what the commands of a status
/// check brought back.
pub fn assemble_status(input: StatusInput) -> (snapshot: StatusSnapshot)
    ensures
        snapshot@ == status_of(input@),
{
    let none: Vec<String> = Vec::new();
    proof {
        assert(none.deep_view() =~= Seq::empty());
    }
    let (doctor_ok, doctor_found) = match &input.doctor {
        Some(ran) => {
            if ran.success {
                (Some(true), none)
            } else {
                (Some(false), doctor_issues(ran))
            }
        },
        None => (None, none),
    };
    let (outdated_count, outdated_packages) = if input.outdated.is_some() {
        let names = outdated_among(printed_by(&input.outdated), printed_by(&input.leaves));
        proof {
            assert(names.deep_view().len() == names.len());
        }
        (Some(names.len()), names)
    } else {
        let nothing: Vec<String> = Vec::new();
        proof {
            assert(nothing.deep_view() =~= Seq::empty());
        }
        (None, nothing)
    };
    let newer = match &input.latest_version {
        Some(latest) => is_newer_version(latest.as_str(), input.current_version.as_str()),
        None => false,
    };
    StatusSnapshot {
        doctor_ok: doctor_ok,
        doctor_issues: doctor_found,
        outdated_count: outdated_count,
        outdated_packages: outdated_packages,
        brew_version: headline_of(&input.version),
        brew_info: headline_of(&input.info),
        brew_update_status: Some(update_status_text(input.last_update_secs_ago).to_owned()),
        last_brew_update_secs_ago: input.last_update_secs_ago,
        brewery_latest_version: input.latest_version,
        brewery_update_available: newer,
    }
}

} // verus!
