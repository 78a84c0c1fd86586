//! Small pieces of text that the screen shows: spans of time, lists in one
//! line, and the choice between an icon and its ASCII form.

use vstd::prelude::*;
use vstd::string::*;

use crate::store::App;
use crate::text::{decimal, decimal_of};

verus! {

/// A span of seconds in its largest whole unit: seconds below a minute,
/// minutes below an hour, hours below a day, days beyond.
pub open spec fn elapsed_text(secs: u64) -> Seq<char> {
    if secs < 60 {
        decimal(secs as nat) + "s"@
    } else if secs < 3600 {
        decimal((secs / 60) as nat) + "m"@
    } else if secs < 86_400 {
        decimal((secs / 3600) as nat) + "h"@
    } else {
        decimal((secs / 86_400) as nat) + "d"@
    }
}

/// Writes a span of seconds in its largest whole unit.
pub fn format_elapsed(secs: u64) -> (text: String)
    ensures
        text@ == elapsed_text(secs),
{
    if secs < 60 {
        decimal_of(secs).concat("s")
    } else if secs < 3600 {
        decimal_of(secs / 60).concat("m")
    } else if secs < 86_400 {
        decimal_of(secs / 3600).concat("h")
    } else {
        decimal_of(secs / 86_400).concat("d")
    }
}

/// The items in a row, a comma and a space between each two.
pub open spec fn comma_joined(items: Seq<Seq<char>>) -> Seq<char>
    decreases items.len(),
{
    if items.len() == 0 {
        Seq::empty()
    } else if items.len() == 1 {
        items[0]
    } else {
        comma_joined(items.drop_last()) + ", "@ + items.last()
    }
}

/// A list in one line: its items with commas between, or the word "none"
/// for the empty list.
pub open spec fn list_inline(items: Seq<Seq<char>>) -> Seq<char> {
    if items.len() == 0 {
        "none"@
    } else {
        comma_joined(items)
    }
}

/// Writes a list in one line.
pub fn format_list_inline(items: &Vec<String>) -> (text: String)
    ensures
        text@ == list_inline(items.deep_view()),
{
    if items.len() == 0 {
        return "none".to_owned();
    }
    let mut text = items[0].clone();
    let mut i: usize = 1;
    proof {
        assert(items.deep_view().take(1) =~= seq![items[0]@]);
    }
    while i < items.len()
        invariant
            1 <= i <= items.len(),
            text@ == comma_joined(items.deep_view().take(i as int)),
        decreases items.len() - i,
    {
        proof {
            assert(items.deep_view().take(i + 1).drop_last() == items.deep_view().take(i as int));
            assert(items.deep_view().take(i + 1).last() == items[i as int]@);
        }
        text.append(", ");
        text.append(items[i].as_str());
        i = i + 1;
    }
    proof {
        assert(items.deep_view().take(items.len() as int) == items.deep_view());
    }
    text
}

/// The pairs of index and name of the visible entries: each visible index
/// that points into the list, with the name it points at.
pub open spec fn listed(names: Seq<Seq<char>>, visible: Seq<usize>) -> Seq<(usize, Seq<char>)>
    decreases visible.len(),
{
    if visible.len() == 0 {
        Seq::empty()
    } else {
        let head = listed(names, visible.drop_last());
        if visible.last() < names.len() {
            head.push((visible.last(), names[visible.last() as int]))
        } else {
            head
        }
    }
}

impl App {
    /// The visible formulae, each with its index.
    pub fn filtered_leaves(&self) -> (pairs: Vec<(usize, &str)>)
        ensures
            pairs.deep_view() == listed(self@.leaves, self@.filtered_leaves),
    {
        let names = self.leaves();
        let visible = self.visible_leaves();
        let mut pairs: Vec<(usize, &str)> = Vec::new();
        let mut k: usize = 0;
        proof {
            assert(pairs.deep_view() =~= listed(names.deep_view(), visible@.take(0)));
        }
        while k < visible.len()
            invariant
                k <= visible.len(),
                pairs.deep_view() == listed(names.deep_view(), visible@.take(k as int)),
            decreases visible.len() - k,
        {
            let i = visible[k];
            let ghost before = pairs.deep_view();
            proof {
                assert(visible@.take(k + 1).drop_last() == visible@.take(k as int));
                assert(visible@.take(k + 1).last() == i);
            }
            if i < names.len() {
                pairs.push((i, names[i].as_str()));
                proof {
                    assert(names.deep_view()[i as int] == names[i as int]@);
                    assert(pairs.deep_view() =~= before.push((i, names[i as int]@)));
                }
            }
            k = k + 1;
        }
        proof {
            assert(visible@.take(visible.len() as int) == visible@);
        }
        pairs
    }
}

/// An icon in the form that the store asks for: `ascii` where icons are
/// drawn in ASCII, `nerd` otherwise.
pub fn symbol<'a>(app: &App, nerd: &'a str, ascii: &'a str) -> (icon: &'a str)
    ensures
        icon@ == if app@.icons_ascii.on() {
            ascii@
        } else {
            nerd@
        },
{
    if app.icons_ascii() {
        ascii
    } else {
        nerd
    }
}

/// An icon in the form that the store asks for, as a string of its own.
pub fn icon_label(app: &App, nerd: &str, ascii: &str) -> (icon: String)
    ensures
        icon@ == if app@.icons_ascii.on() {
            ascii@
        } else {
            nerd@
        },
{
    symbol(app, nerd, ascii).to_owned()
}

} // verus!
