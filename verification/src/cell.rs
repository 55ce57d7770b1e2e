//! Grid cells and their display attributes.

use vstd::prelude::*;
use crate::color::{Color, SpecialColor};

verus! {

/// The independent attribute bits of a cell. `blink_slow` and `blink_fast`
/// are kept mutually exclusive by the screen handler.
#[derive(Debug, Clone, Copy, PartialEq, Eq, Structural)]
pub struct Flags {
    pub inverse: bool,
    pub bold: bool,
    pub italic: bool,
    pub underline: bool,
    pub wrapline: bool,
    pub wide_char: bool,
    pub wide_char_spacer: bool,
    pub dim: bool,
    pub hidden: bool,
    pub strikeout: bool,
    pub blink_slow: bool,
    pub blink_fast: bool,
}

impl Flags {
    pub open spec fn spec_empty() -> Flags {
        Flags {
            inverse: false,
            bold: false,
            italic: false,
            underline: false,
            wrapline: false,
            wide_char: false,
            wide_char_spacer: false,
            dim: false,
            hidden: false,
            strikeout: false,
            blink_slow: false,
            blink_fast: false,
        }
    }

    /// No flag set.
    pub fn empty() -> (r: Flags)
        ensures
            r == Flags::spec_empty(),
    {
        Flags {
            inverse: false,
            bold: false,
            italic: false,
            underline: false,
            wrapline: false,
            wide_char: false,
            wide_char_spacer: false,
            dim: false,
            hidden: false,
            strikeout: false,
            blink_slow: false,
            blink_fast: false,
        }
    }
}

impl Default for Flags {
    fn default() -> (r: Self)
        ensures
            r == Flags::spec_empty(),
    {
        Flags::empty()
    }
}

/// The attributes a cell is drawn with.
#[derive(Debug, Clone, Copy, PartialEq, Eq, Structural)]
pub struct Attributes {
    pub fg: Color,
    pub bg: Color,
    pub flags: Flags,
}

impl Attributes {
    pub open spec fn spec_default() -> Attributes {
        Attributes {
            fg: Color::Special(SpecialColor::Foreground),
            bg: Color::Special(SpecialColor::Background),
            flags: Flags::spec_empty(),
        }
    }
}

impl Default for Attributes {
    fn default() -> (r: Self)
        ensures
            r == Attributes::spec_default(),
    {
        Attributes {
            fg: Color::Special(SpecialColor::Foreground),
            bg: Color::Special(SpecialColor::Background),
            flags: Flags::empty(),
        }
    }
}

/// One cell of the grid: an optional character and its attributes. A `None`
/// character is an erased cell that still carries its attributes.
#[derive(Debug, Clone, Copy, PartialEq, Eq, Structural)]
pub struct Cell {
    pub ch: Option<char>,
    pub attributes: Attributes,
}

impl Cell {
    pub open spec fn spec_default() -> Cell {
        Cell { ch: None, attributes: Attributes::spec_default() }
    }

    /// A blank cell carrying the given attributes.
    pub fn blank(attributes: Attributes) -> (r: Cell)
        ensures
            r == (Cell { ch: None, attributes }),
    {
        Cell { ch: None, attributes }
    }
}

impl Default for Cell {
    fn default() -> (r: Self)
        ensures
            r == Cell::spec_default(),
    {
        Cell { ch: None, attributes: Attributes::default() }
    }
}

} // verus!
