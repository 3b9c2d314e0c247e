//! The fixed mapping between logical hex keys and host keys.
//!
//! The machine sees 16 logical keys, `0x0` to `0xF`. Each is tied to
//! one host key, named here by the character on its keycap; the
//! window driver translates those characters to its own key codes.
//! Both directions of the mapping are provided, and they are proved
//! inverse in `laws`.

use vstd::prelude::*;

verus! {

/// The host key assigned to a logical hex digit.
pub open spec fn key_of_digit(d: u8) -> char {
    if d == 0x0 {
        '1'
    } else if d == 0x1 {
        '2'
    } else if d == 0x2 {
        '3'
    } else if d == 0x3 {
        '4'
    } else if d == 0x4 {
        'Q'
    } else if d == 0x5 {
        'W'
    } else if d == 0x6 {
        'E'
    } else if d == 0x7 {
        'R'
    } else if d == 0x8 {
        'A'
    } else if d == 0x9 {
        'S'
    } else if d == 0xA {
        'D'
    } else if d == 0xB {
        'F'
    } else if d == 0xC {
        'Z'
    } else if d == 0xD {
        'X'
    } else if d == 0xE {
        'C'
    } else {
        'V'
    }
}

/// The logical hex digit a host key stands for, if it is mapped.
pub open spec fn digit_of_key(c: char) -> Option<u8> {
    match c {
        '1' => Some(0x0),
        '2' => Some(0x1),
        '3' => Some(0x2),
        '4' => Some(0x3),
        'Q' => Some(0x4),
        'W' => Some(0x5),
        'E' => Some(0x6),
        'R' => Some(0x7),
        'A' => Some(0x8),
        'S' => Some(0x9),
        'D' => Some(0xA),
        'F' => Some(0xB),
        'Z' => Some(0xC),
        'X' => Some(0xD),
        'C' => Some(0xE),
        'V' => Some(0xF),
        _ => None,
    }
}

/// One host key, named by the character on its keycap.
pub struct Keypad(pub char);

impl Keypad {
    /// The host key tied to the logical hex digit `d`.
    pub fn from_digit(d: u8) -> (r: Keypad)
        requires
            d < 16,
        ensures
            r.0 == key_of_digit(d),
    {
        let c = if d == 0x0 {
            '1'
        } else if d == 0x1 {
            '2'
        } else if d == 0x2 {
            '3'
        } else if d == 0x3 {
            '4'
        } else if d == 0x4 {
            'Q'
        } else if d == 0x5 {
            'W'
        } else if d == 0x6 {
            'E'
        } else if d == 0x7 {
            'R'
        } else if d == 0x8 {
            'A'
        } else if d == 0x9 {
            'S'
        } else if d == 0xA {
            'D'
        } else if d == 0xB {
            'F'
        } else if d == 0xC {
            'Z'
        } else if d == 0xD {
            'X'
        } else if d == 0xE {
            'C'
        } else {
            'V'
        };
        Keypad(c)
    }

    /// The logical hex digit this host key stands for, or `None` when
    /// the key is not part of the mapping.
    pub fn digit(&self) -> (r: Option<u8>)
        ensures
            r == digit_of_key(self.0),
    {
        match self.0 {
            '1' => Some(0x0),
            '2' => Some(0x1),
            '3' => Some(0x2),
            '4' => Some(0x3),
            'Q' => Some(0x4),
            'W' => Some(0x5),
            'E' => Some(0x6),
            'R' => Some(0x7),
            'A' => Some(0x8),
            'S' => Some(0x9),
            'D' => Some(0xA),
            'F' => Some(0xB),
            'Z' => Some(0xC),
            'X' => Some(0xD),
            'C' => Some(0xE),
            'V' => Some(0xF),
            _ => None,
        }
    }
}

} // verus!
