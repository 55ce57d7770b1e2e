//! Designatable character sets and the DEC special graphics mapping.

use vstd::prelude::*;

verus! {

/// Identifiers which can be assigned to a graphic character set.
#[derive(Debug, Clone, Copy, PartialEq, Eq, Structural)]
pub enum CharsetIndex {
    /// Default set, is designated as ASCII at startup.
    G0,
    G1,
    G2,
    G3,
}

impl Default for CharsetIndex {
    fn default() -> (r: Self)
        ensures
            r == CharsetIndex::G0,
    {
        CharsetIndex::G0
    }
}

/// Standard or common character sets which can be designated as G0-G3.
#[derive(Debug, Clone, Copy, PartialEq, Eq, Structural)]
pub enum StandardCharset {
    /// Standard ASCII characters.
    Ascii,
    /// Special characters and line drawings.
    Special,
}

impl Default for StandardCharset {
    fn default() -> (r: Self)
        ensures
            r == StandardCharset::Ascii,
    {
        StandardCharset::Ascii
    }
}

/// What `map` returns: the identity on `Ascii`; on `Special`, the DEC
/// line-drawing table on its fixed domain, the identity everywhere else.
pub open spec fn spec_map_char(cs: StandardCharset, c: char) -> char {
    match cs {
        StandardCharset::Ascii => c,
        StandardCharset::Special => spec_special_char(c),
    }
}

/// The DEC special graphics table. Total: characters outside the table map
/// to themselves.
pub open spec fn spec_special_char(c: char) -> char {
    if c == '`' {
        '\u{25c6}'
    } else if c == 'a' {
        '\u{2592}'
    } else if c == 'b' {
        '\t'
    } else if c == 'c' {
        '\u{000c}'
    } else if c == 'd' {
        '\r'
    } else if c == 'e' {
        '\n'
    } else if c == 'f' {
        '\u{00b0}'
    } else if c == 'g' {
        '\u{00b1}'
    } else if c == 'h' {
        '\u{2424}'
    } else if c == 'i' {
        '\u{000b}'
    } else if c == 'j' {
        '\u{2518}'
    } else if c == 'k' {
        '\u{2510}'
    } else if c == 'l' {
        '\u{250c}'
    } else if c == 'm' {
        '\u{2514}'
    } else if c == 'n' {
        '\u{253c}'
    } else if c == 'o' {
        '\u{23ba}'
    } else if c == 'p' {
        '\u{23bb}'
    } else if c == 'q' {
        '\u{2500}'
    } else if c == 'r' {
        '\u{23bc}'
    } else if c == 's' {
        '\u{23bd}'
    } else if c == 't' {
        '\u{251c}'
    } else if c == 'u' {
        '\u{2524}'
    } else if c == 'v' {
        '\u{2534}'
    } else if c == 'w' {
        '\u{252c}'
    } else if c == 'x' {
        '\u{2502}'
    } else if c == 'y' {
        '\u{2264}'
    } else if c == 'z' {
        '\u{2265}'
    } else if c == '{' {
        '\u{03c0}'
    } else if c == '|' {
        '\u{2260}'
    } else if c == '}' {
        '\u{00a3}'
    } else if c == '~' {
        '\u{00b7}'
    } else {
        c
    }
}

impl StandardCharset {
    /// Switch/Map character to the active charset. Ascii is the common case
    /// and for that we want to do as little as possible.
    pub fn map(self, c: char) -> (r: char)
        ensures
            r == spec_map_char(self, c),
    {
        match self {
            StandardCharset::Ascii => c,
            StandardCharset::Special => match c {
                '`' => '◆',
                'a' => '▒',
                'b' => '\t',
                'c' => '\u{000c}',
                'd' => '\r',
                'e' => '\n',
                'f' => '°',
                'g' => '±',
                'h' => '\u{2424}',
                'i' => '\u{000b}',
                'j' => '┘',
                'k' => '┐',
                'l' => '┌',
                'm' => '└',
                'n' => '┼',
                'o' => '⎺',
                'p' => '⎻',
                'q' => '─',
                'r' => '⎼',
                's' => '⎽',
                't' => '├',
                'u' => '┤',
                'v' => '┴',
                'w' => '┬',
                'x' => '│',
                'y' => '≤',
                'z' => '≥',
                '{' => 'π',
                '|' => '≠',
                '}' => '£',
                '~' => '·',
                _ => c,
            },
        }
    }
}

/// Mapping on `Ascii` is the identity; on `Special` it is defined for every
/// character and is the identity outside the table's fixed domain.
pub proof fn lemma_charset_mapping(c: char)
    ensures
        spec_map_char(StandardCharset::Ascii, c) == c,
        !special_table_domain(c) ==> spec_map_char(StandardCharset::Special, c) == c,
{
}

/// The fixed domain of the DEC special graphics table: backtick, the lower
/// case letters, and the four characters following them.
pub open spec fn special_table_domain(c: char) -> bool {
    '`' as u32 <= c as u32 <= '~' as u32
}

/// The four designatable slots.
#[derive(Debug, Clone, Copy, PartialEq, Eq, Structural)]
pub struct CharsetList {
    pub g0: StandardCharset,
    pub g1: StandardCharset,
    pub g2: StandardCharset,
    pub g3: StandardCharset,
}

impl Default for CharsetList {
    fn default() -> (r: Self)
        ensures
            r == CharsetList::spec_default(),
    {
        CharsetList {
            g0: StandardCharset::Ascii,
            g1: StandardCharset::Ascii,
            g2: StandardCharset::Ascii,
            g3: StandardCharset::Ascii,
        }
    }
}

impl CharsetList {
    pub open spec fn spec_default() -> CharsetList {
        CharsetList {
            g0: StandardCharset::Ascii,
            g1: StandardCharset::Ascii,
            g2: StandardCharset::Ascii,
            g3: StandardCharset::Ascii,
        }
    }

    pub open spec fn spec_get(self, index: CharsetIndex) -> StandardCharset {
        match index {
            CharsetIndex::G0 => self.g0,
            CharsetIndex::G1 => self.g1,
            CharsetIndex::G2 => self.g2,
            CharsetIndex::G3 => self.g3,
        }
    }

    pub open spec fn spec_set(self, index: CharsetIndex, cs: StandardCharset) -> CharsetList {
        match index {
            CharsetIndex::G0 => CharsetList { g0: cs, ..self },
            CharsetIndex::G1 => CharsetList { g1: cs, ..self },
            CharsetIndex::G2 => CharsetList { g2: cs, ..self },
            CharsetIndex::G3 => CharsetList { g3: cs, ..self },
        }
    }

    /// The charset designated to the given slot.
    pub fn get(&self, index: CharsetIndex) -> (r: StandardCharset)
        ensures
            r == self.spec_get(index),
    {
        match index {
            CharsetIndex::G0 => self.g0,
            CharsetIndex::G1 => self.g1,
            CharsetIndex::G2 => self.g2,
            CharsetIndex::G3 => self.g3,
        }
    }

    /// Designate a charset to the given slot.
    pub fn set(&mut self, index: CharsetIndex, cs: StandardCharset)
        ensures
            *final(self) == old(self).spec_set(index, cs),
    {
        match index {
            CharsetIndex::G0 => self.g0 = cs,
            CharsetIndex::G1 => self.g1 = cs,
            CharsetIndex::G2 => self.g2 = cs,
            CharsetIndex::G3 => self.g3 = cs,
        }
    }
}

} // verus!
