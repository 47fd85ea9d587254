//! The console's theme.

use vstd::prelude::*;

use crate::text::same;

verus! {

pub const DARK: &'static str = "dark";

pub const LIGHT: &'static str = "light";

/// The theme that is kept: dark, unless light was kept.
pub open spec fn kept_theme(stored: Option<Seq<char>>) -> Seq<char> {
    if stored == Some(LIGHT@) {
        LIGHT@
    } else {
        DARK@
    }
}

/// The theme that is kept. What is no theme, or nothing, is dark.
pub fn current_theme(stored: Option<String>) -> (out: String)
    ensures
        out@ == kept_theme(crate::text::text_of(stored)),
{
    match stored {
        Some(text) => if same(text.as_str(), DARK) || same(text.as_str(), LIGHT) {
            text
        } else {
            DARK.to_owned()
        },
        None => DARK.to_owned(),
    }
}

/// The other theme.
pub fn toggle(stored: Option<String>) -> (out: String)
    ensures
        out@ == (if kept_theme(crate::text::text_of(stored)) == DARK@ {
            LIGHT@
        } else {
            DARK@
        }),
{
    let current: String = current_theme(stored);
    if same(current.as_str(), DARK) {
        LIGHT.to_owned()
    } else {
        DARK.to_owned()
    }
}

/// The other theme of the other theme is the theme itself.
pub proof fn toggling_twice_stays(stored: Option<Seq<char>>)
    ensures
        ({
            let once = if kept_theme(stored) == DARK@ {
                LIGHT@
            } else {
                DARK@
            };
            let twice = if kept_theme(Some(once)) == DARK@ {
                LIGHT@
            } else {
                DARK@
            };
            twice == kept_theme(stored)
        }),
{
    reveal_strlit("dark");
    reveal_strlit("light");
    assert(DARK@.len() == 4 && LIGHT@.len() == 5);
}

/// What the button that switches the theme shows.
pub fn button_label(theme: &str) -> (out: &'static str)
    ensures
        out@ == (if theme@ == DARK@ {
            "\u{2600} Light"@
        } else {
            "\u{1f319} Dark"@
        }),
{
    if same(theme, DARK) {
        "\u{2600} Light"
    } else {
        "\u{1f319} Dark"
    }
}

} // verus!
