//! The colours that the screens use, independent of any terminal library.
use vstd::prelude::*;

verus! {

/// A terminal colour.
#[derive(Clone, Copy, Debug, PartialEq, Eq, Structural)]
pub enum Color {
    Reset,
    Black,
    White,
    Grey,
    DarkGrey,
    Red,
    DarkRed,
    Green,
    DarkGreen,
    Yellow,
    DarkYellow,
    Cyan,
    DarkCyan,
    Magenta,
    DarkMagenta,
}

/// The colour of a percentage score: green from 75, yellow from 60, red below.
pub open spec fn spec_color_for_pct(pct: nat) -> Color {
    if pct >= 75 {
        Color::Green
    } else if pct >= 60 {
        Color::Yellow
    } else {
        Color::Red
    }
}

/// The colour of a percentage score: green from 75, yellow from 60, red below.
pub fn color_for_pct(pct: usize) -> (c: Color)
    ensures
        c == spec_color_for_pct(pct as nat),
{
    if pct >= 75 {
        Color::Green
    } else if pct >= 60 {
        Color::Yellow
    } else {
        Color::Red
    }
}

} // verus!
