//! Which key of a keyboard stands for which key of the pad.

use crate::emu::input::Key;
use vstd::prelude::*;

verus! {

/// A keyboard layout. On either, the pad lies under the same sixteen positions of the
/// keyboard: the four left keys of each of four rows.
#[derive(Debug, Clone, Copy, PartialEq, Eq, Structural)]
pub enum KeyMapping {
    Qwerty,
    Colemak,
}

/// The key of the pad at the position of the character `keycode`, given in lower case, on
/// the layout `mapping`; `None` for a character outside the sixteen positions.
pub open spec fn emu_key_of(keycode: char, mapping: KeyMapping) -> Option<Key> {
    match mapping {
        KeyMapping::Qwerty => if keycode == '1' {
            Some(Key::One)
        } else if keycode == '2' {
            Some(Key::Two)
        } else if keycode == '3' {
            Some(Key::Three)
        } else if keycode == '4' {
            Some(Key::C)
        } else if keycode == 'q' {
            Some(Key::Four)
        } else if keycode == 'w' {
            Some(Key::Five)
        } else if keycode == 'e' {
            Some(Key::Six)
        } else if keycode == 'r' {
            Some(Key::D)
        } else if keycode == 'a' {
            Some(Key::Seven)
        } else if keycode == 's' {
            Some(Key::Eight)
        } else if keycode == 'd' {
            Some(Key::Nine)
        } else if keycode == 'f' {
            Some(Key::E)
        } else if keycode == 'z' {
            Some(Key::A)
        } else if keycode == 'x' {
            Some(Key::Zero)
        } else if keycode == 'c' {
            Some(Key::B)
        } else if keycode == 'v' {
            Some(Key::F)
        } else {
            None
        },
        KeyMapping::Colemak => if keycode == '1' {
            Some(Key::One)
        } else if keycode == '2' {
            Some(Key::Two)
        } else if keycode == '3' {
            Some(Key::Three)
        } else if keycode == '4' {
            Some(Key::C)
        } else if keycode == 'q' {
            Some(Key::Four)
        } else if keycode == 'w' {
            Some(Key::Five)
        } else if keycode == 'f' {
            Some(Key::Six)
        } else if keycode == 'p' {
            Some(Key::D)
        } else if keycode == 'a' {
            Some(Key::Seven)
        } else if keycode == 'r' {
            Some(Key::Eight)
        } else if keycode == 's' {
            Some(Key::Nine)
        } else if keycode == 't' {
            Some(Key::E)
        } else if keycode == 'z' {
            Some(Key::A)
        } else if keycode == 'x' {
            Some(Key::Zero)
        } else if keycode == 'c' {
            Some(Key::B)
        } else if keycode == 'v' {
            Some(Key::F)
        } else {
            None
        },
    }
}

/// The key of the pad that a hexadecimal digit names; the letters are in lower case.
pub open spec fn digit_key_of(digit: char) -> Option<Key> {
    if digit == '0' {
        Some(Key::Zero)
    } else if digit == '1' {
        Some(Key::One)
    } else if digit == '2' {
        Some(Key::Two)
    } else if digit == '3' {
        Some(Key::Three)
    } else if digit == '4' {
        Some(Key::Four)
    } else if digit == '5' {
        Some(Key::Five)
    } else if digit == '6' {
        Some(Key::Six)
    } else if digit == '7' {
        Some(Key::Seven)
    } else if digit == '8' {
        Some(Key::Eight)
    } else if digit == '9' {
        Some(Key::Nine)
    } else if digit == 'a' {
        Some(Key::A)
    } else if digit == 'b' {
        Some(Key::B)
    } else if digit == 'c' {
        Some(Key::C)
    } else if digit == 'd' {
        Some(Key::D)
    } else if digit == 'e' {
        Some(Key::E)
    } else if digit == 'f' {
        Some(Key::F)
    } else {
        None
    }
}

/// The key of the pad that a hexadecimal digit names.
pub fn key_of_digit(digit: char) -> (key: Option<Key>)
    ensures
        key == digit_key_of(digit),
{
    match digit {
        '0' => Some(Key::Zero),
        '1' => Some(Key::One),
        '2' => Some(Key::Two),
        '3' => Some(Key::Three),
        '4' => Some(Key::Four),
        '5' => Some(Key::Five),
        '6' => Some(Key::Six),
        '7' => Some(Key::Seven),
        '8' => Some(Key::Eight),
        '9' => Some(Key::Nine),
        'a' => Some(Key::A),
        'b' => Some(Key::B),
        'c' => Some(Key::C),
        'd' => Some(Key::D),
        'e' => Some(Key::E),
        'f' => Some(Key::F),
        _ => None,
    }
}

impl Default for KeyMapping {
    fn default() -> (mapping: Self)
        ensures
            mapping == KeyMapping::Qwerty,
    {
        Self::Qwerty
    }
}

/// The key of the pad that a key of the keyboard stands for.
pub fn to_emu_key(keycode: char, mapping: KeyMapping) -> (key: Option<Key>)
    ensures
        key == emu_key_of(keycode, mapping),
{
    match mapping {
        KeyMapping::Qwerty => match keycode {
            '1' => Some(Key::One),
            '2' => Some(Key::Two),
            '3' => Some(Key::Three),
            '4' => Some(Key::C),
            'q' => Some(Key::Four),
            'w' => Some(Key::Five),
            'e' => Some(Key::Six),
            'r' => Some(Key::D),
            'a' => Some(Key::Seven),
            's' => Some(Key::Eight),
            'd' => Some(Key::Nine),
            'f' => Some(Key::E),
            'z' => Some(Key::A),
            'x' => Some(Key::Zero),
            'c' => Some(Key::B),
            'v' => Some(Key::F),
            _ => None,
        },
        KeyMapping::Colemak => match keycode {
            '1' => Some(Key::One),
            '2' => Some(Key::Two),
            '3' => Some(Key::Three),
            '4' => Some(Key::C),
            'q' => Some(Key::Four),
            'w' => Some(Key::Five),
            'f' => Some(Key::Six),
            'p' => Some(Key::D),
            'a' => Some(Key::Seven),
            'r' => Some(Key::Eight),
            's' => Some(Key::Nine),
            't' => Some(Key::E),
            'z' => Some(Key::A),
            'x' => Some(Key::Zero),
            'c' => Some(Key::B),
            'v' => Some(Key::F),
            _ => None,
        },
    }
}

} // verus!
