//! What the environment of the terminal says of the looks that suit it:
//! whether its background is dark, and whether icons are asked for in
//! ASCII. The caller reads the environment; the rules are here.

use vstd::prelude::*;
use vstd::string::*;
use vstd::utf8::encode_utf8;

use crate::gateway::{CommandResult, CommandResultView};
use crate::matching::{
    ascii_lower, ascii_window, contains_text, has_infix, lower_byte, lowercase, lowercase_text,
};
use crate::outputs::{parse_u64, parsed_u64};
use crate::text::{chars_of, first_sep, lemma_first_sep, same_text, string_of, trim, trimmed};

verus! {

/// Whether two byte strings are the same, ASCII letter case set aside.
pub open spec fn ascii_same(a: Seq<u8>, b: Seq<u8>) -> bool {
    a.len() == b.len() && ascii_window(a, b, 0)
}

/// Whether two strings are the same, ASCII letter case set aside.
pub fn same_ignoring_ascii_case(a: &str, b: &str) -> (same: bool)
    ensures
        same == ascii_same(encode_utf8(a@), encode_utf8(b@)),
{
    let x = a.as_bytes();
    let y = b.as_bytes();
    if x.len() != y.len() {
        return false;
    }
    let mut i: usize = 0;
    while i < x.len()
        invariant
            i <= x.len(),
            x.len() == y.len(),
            x@ == encode_utf8(a@),
            y@ == encode_utf8(b@),
            forall|j: int| 0 <= j < i ==> ascii_lower(x@[0 + j]) == ascii_lower(#[trigger] y@[j]),
        decreases x.len() - i,
    {
        if lower_byte(x[i]) != lower_byte(y[i]) {
            proof {
                assert(x@[0 + i] == x@[i as int]);
            }
            return false;
        }
        i = i + 1;
    }
    true
}

/// Whether the environment asks for icons in ASCII: by the value "1" or
/// the word "true" in any letter case.
pub open spec fn asks_ascii(value: Option<Seq<char>>) -> bool {
    match value {
        Some(v) => v == "1"@ || ascii_same(encode_utf8(v), encode_utf8("true"@)),
        None => false,
    }
}

/// Whether the environment asks for icons in ASCII.
pub fn icons_ascii_asked(value: Option<&str>) -> (asked: bool)
    ensures
        asked == asks_ascii(value.deep_view()),
{
    match value {
        Some(v) => same_text(v, "1") || same_ignoring_ascii_case(v, "true"),
        None => false,
    }
}

/// What stands after the last `sep` of `s`, or all of `s` where it holds
/// none.
pub open spec fn last_piece(s: Seq<char>, sep: char) -> Seq<char>
    decreases s.len(),
{
    let k = first_sep(s, sep);
    if 0 <= k < s.len() {
        last_piece(s.skip(k + 1), sep)
    } else {
        s
    }
}

proof fn lemma_last_piece(s: Seq<char>, sep: char, from: int)
    requires
        0 <= from <= s.len(),
        from > 0 ==> s[from - 1] == sep,
        forall|j: int| from <= j < s.len() ==> s[j] != sep,
    ensures
        last_piece(s, sep) == s.skip(from),
    decreases s.len(),
{
    let k = first_sep(s, sep);
    lemma_first_sep(s, sep);
    if 0 <= k < s.len() {
        let rest = s.skip(k + 1);
        assert(k < from);
        assert forall|j: int| from - k - 1 <= j < rest.len() implies rest[j] != sep by {
            assert(rest[j] == s[j + k + 1]);
        }
        if from - k - 1 > 0 {
            assert(rest[from - k - 2] == s[from - 1]);
        }
        lemma_last_piece(rest, sep, from - k - 1);
        assert(rest.skip(from - k - 1) == s.skip(from));
    } else {
        if from > 0 {
            assert(s[from - 1] == sep);
        }
        assert(s.skip(0) == s);
    }
}

fn last_piece_of(s: &str, sep: char) -> (piece: String)
    ensures
        piece@ == last_piece(s@, sep),
{
    let chars = chars_of(s);
    let mut from: usize = 0;
    let mut i: usize = 0;
    while i < chars.len()
        invariant
            from <= i <= chars.len(),
            from > 0 ==> chars@[from - 1] == sep,
            forall|j: int| from <= j < i ==> chars@[j] != sep,
        decreases chars.len() - i,
    {
        if chars[i] == sep {
            from = i + 1;
        }
        i = i + 1;
    }
    proof {
        lemma_last_piece(chars@, sep, from as int);
        assert(chars@.skip(from as int) == chars@.subrange(from as int, chars.len() as int));
    }
    string_of(&chars, from, chars.len())
}

/// The number of the background colour that `COLORFGBG` names: what
/// stands after its last semicolon, where that is a number of one byte.
pub open spec fn background_number(colorfgbg: Seq<char>) -> Option<u64> {
    match parsed_u64(last_piece(colorfgbg, ';')) {
        Some(n) => if n <= 255 {
            Some(n)
        } else {
            None
        },
        None => None,
    }
}

/// Whether the terminal is one of those that say in their version where
/// they run on a light background, and says so.
pub open spec fn light_terminal(program: Option<Seq<char>>, version: Option<Seq<char>>) -> bool {
    &&& program is Some
    &&& version is Some
    &&& (has_infix(lowercase(program->0), "iterm"@) || has_infix(
        lowercase(program->0),
        "alacritty"@,
    ) || has_infix(lowercase(program->0), "kitty"@))
    &&& has_infix(version->0, "light"@)
}

/// Whether the screen is to be drawn for a dark background. The colour
/// number of `COLORFGBG` decides where there is one: 0 and 8 to 15 are
/// dark. Else a terminal that says it is light is light. Else the
/// interface style of the system decides where it could be asked: dark
/// where it says so, light otherwise. Else the background counts as dark.
pub open spec fn is_dark_background(
    colorfgbg: Option<Seq<char>>,
    program: Option<Seq<char>>,
    version: Option<Seq<char>>,
    style: Option<CommandResultView>,
) -> bool {
    if colorfgbg is Some && background_number(colorfgbg->0) is Some {
        let n = background_number(colorfgbg->0)->0;
        n == 0 || 8 <= n <= 15
    } else if light_terminal(program, version) {
        false
    } else {
        match style {
            Some(said) => said.success && ascii_same(
                encode_utf8(trimmed(said.stdout)),
                encode_utf8("dark"@),
            ),
            None => true,
        }
    }
}

fn background_number_of(colorfgbg: &str) -> (n: Option<u64>)
    ensures
        n == background_number(colorfgbg@),
{
    let last = last_piece_of(colorfgbg, ';');
    match parse_u64(last.as_str()) {
        Some(n) => {
            if n <= 255 {
                Some(n)
            } else {
                None
            }
        },
        None => None,
    }
}

fn is_light_terminal(program: Option<&str>, version: Option<&str>) -> (light: bool)
    ensures
        light == light_terminal(program.deep_view(), version.deep_view()),
{
    match (program, version) {
        (Some(p), Some(v)) => {
            let lower = lowercase_text(p);
            (contains_text(lower.as_str(), "iterm") || contains_text(lower.as_str(), "alacritty")
                || contains_text(lower.as_str(), "kitty")) && contains_text(v, "light")
        },
        _ => false,
    }
}

/// Whether the screen is to be drawn for a dark background.
pub fn dark_background(
    colorfgbg: Option<&str>,
    program: Option<&str>,
    version: Option<&str>,
    style: Option<&CommandResult>,
) -> (dark: bool)
    ensures
        dark == is_dark_background(
            colorfgbg.deep_view(),
            program.deep_view(),
            version.deep_view(),
            style.deep_view(),
        ),
{
    match colorfgbg {
        Some(value) => match background_number_of(value) {
            Some(n) => {
                return n == 0 || (8 <= n && n <= 15);
            },
            None => {},
        },
        None => {},
    }
    if is_light_terminal(program, version) {
        return false;
    }
    match style {
        Some(said) => said.success && same_ignoring_ascii_case(trim(said.stdout.as_str()), "dark"),
        None => true,
    }
}

} // verus!
