//! Keysyms and their Latin-1 characters.

use vstd::prelude::*;

use crate::display::error::Error;

verus! {

/// The character sets that the high byte of a keysym names.
#[non_exhaustive]
pub struct CharacterSet;

impl CharacterSet {
    pub const LATIN1: u8 = 0;
    pub const LATIN2: u8 = 1;
    pub const LATIN3: u8 = 2;
    pub const LATIN4: u8 = 3;
    pub const KANA: u8 = 4;
    pub const ARABIC: u8 = 5;
    pub const CYRILLIC: u8 = 6;
    pub const GREEK: u8 = 7;
    pub const TECHNICAL: u8 = 8;
    pub const SPECIAL: u8 = 9;
    pub const PUBLISHING: u8 = 10;
    pub const APL: u8 = 11;
    pub const HEBREW: u8 = 12;
    pub const THAI: u8 = 13;
    pub const KOREAN: u8 = 14;
    pub const LATIN5: u8 = 15;
    pub const LATIN6: u8 = 16;
    pub const LATIN7: u8 = 17;
    pub const LATIN8: u8 = 18;
    pub const LATIN9: u8 = 19;
    pub const CURRENCY: u8 = 32;
    pub const C3270: u8 = 253;
    pub const XKB: u8 = 254;
    pub const KEYBOARD: u8 = 255;
}

/// A symbol that a key can produce.
#[derive(Debug, Clone, Copy, PartialEq, Eq, Structural)]
pub struct Keysym {
    pub value: u32,
}

/// The character set of a keysym: its second-lowest byte.
pub open spec fn charset_of(value: u32) -> u8 {
    ((value / 256) % 256) as u8
}

/// The Latin-1 character of a keysym: its lowest byte.
pub open spec fn latin1_of(value: u32) -> char {
    ((value % 256) as u8) as char
}

impl Keysym {
    pub fn new(value: u32) -> (r: Keysym)
        ensures
            r.value == value,
    {
        Keysym { value }
    }

    /// The character of a Latin-1 keysym; any other character set is refused.
    pub fn character(&self) -> (r: Result<char, Error>)
        ensures
            charset_of(self.value) == CharacterSet::LATIN1 ==> r == Ok::<char, Error>(
                latin1_of(self.value),
            ),
            charset_of(self.value) != CharacterSet::LATIN1 ==> r == Err::<char, Error>(
                Error::InvalidKeysym,
            ),
    {
        if ((self.value / 256) % 256) as u8 == CharacterSet::LATIN1 {
            Ok(((self.value % 256) as u8) as char)
        } else {
            Err(Error::InvalidKeysym)
        }
    }
}

} // verus!
