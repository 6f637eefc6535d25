//! The key pad: sixteen keys that are up or down.

use crate::emu::mnemonic::hex_char;
use vstd::prelude::*;

verus! {

/// Number of keys of the pad.
pub const KEYPAD_SIZE: usize = 16;

/// The state of the sixteen keys; `keys[k]` is true while the key with code `k` is down.
#[derive(Debug, PartialEq)]
pub struct Input {
    pub keys: [bool; 16],
}

/// A key of the pad, named by its hexadecimal digit.
#[derive(Debug, Copy, Clone, PartialEq, Eq, Structural)]
pub enum Key {
    Zero,
    One,
    Two,
    Three,
    Four,
    Five,
    Six,
    Seven,
    Eight,
    Nine,
    A,
    B,
    C,
    D,
    E,
    F,
}

/// Every key, in the order of the key codes.
pub const KEY_LIST: [Key; 16] = [
    Key::Zero,
    Key::One,
    Key::Two,
    Key::Three,
    Key::Four,
    Key::Five,
    Key::Six,
    Key::Seven,
    Key::Eight,
    Key::Nine,
    Key::A,
    Key::B,
    Key::C,
    Key::D,
    Key::E,
    Key::F,
];

/// The pad with no key down.
pub open spec fn no_keys() -> Seq<bool> {
    Seq::new(16, |k: int| false)
}

/// The lowest code, from `from` on, of a key that is down.
pub open spec fn pressed_from(keys: Seq<bool>, from: int) -> Option<u8>
    decreases 16 - from,
{
    if from < 0 || from >= 16 {
        None
    } else if keys[from] {
        Some(from as u8)
    } else {
        pressed_from(keys, from + 1)
    }
}

/// The lowest code of a key that is down, if any key is.
pub open spec fn lowest_pressed(keys: Seq<bool>) -> Option<u8> {
    pressed_from(keys, 0)
}

impl Key {
    /// The code of the key, 0 to 15.
    pub open spec fn code_of(self) -> u8 {
        match self {
            Key::Zero => 0x0,
            Key::One => 0x1,
            Key::Two => 0x2,
            Key::Three => 0x3,
            Key::Four => 0x4,
            Key::Five => 0x5,
            Key::Six => 0x6,
            Key::Seven => 0x7,
            Key::Eight => 0x8,
            Key::Nine => 0x9,
            Key::A => 0xA,
            Key::B => 0xB,
            Key::C => 0xC,
            Key::D => 0xD,
            Key::E => 0xE,
            Key::F => 0xF,
        }
    }

    /// The code of the key, 0 to 15.
    pub fn code(self) -> (code: u8)
        ensures
            code == self.code_of(),
            code < 16,
    {
        match self {
            Key::Zero => 0x0,
            Key::One => 0x1,
            Key::Two => 0x2,
            Key::Three => 0x3,
            Key::Four => 0x4,
            Key::Five => 0x5,
            Key::Six => 0x6,
            Key::Seven => 0x7,
            Key::Eight => 0x8,
            Key::Nine => 0x9,
            Key::A => 0xA,
            Key::B => 0xB,
            Key::C => 0xC,
            Key::D => 0xD,
            Key::E => 0xE,
            Key::F => 0xF,
        }
    }

    /// The hexadecimal digit that names the key.
    pub fn as_str(&self) -> (name: &str)
        ensures
            name@ == seq![hex_char(self.code_of() as int)],
    {
        proof {
            reveal_strlit("0");
            reveal_strlit("1");
            reveal_strlit("2");
            reveal_strlit("3");
            reveal_strlit("4");
            reveal_strlit("5");
            reveal_strlit("6");
            reveal_strlit("7");
            reveal_strlit("8");
            reveal_strlit("9");
            reveal_strlit("A");
            reveal_strlit("B");
            reveal_strlit("C");
            reveal_strlit("D");
            reveal_strlit("E");
            reveal_strlit("F");
        }
        let name = match *self {
            Key::Zero => "0",
            Key::One => "1",
            Key::Two => "2",
            Key::Three => "3",
            Key::Four => "4",
            Key::Five => "5",
            Key::Six => "6",
            Key::Seven => "7",
            Key::Eight => "8",
            Key::Nine => "9",
            Key::A => "A",
            Key::B => "B",
            Key::C => "C",
            Key::D => "D",
            Key::E => "E",
            Key::F => "F",
        };
        assert(name@ =~= seq![hex_char(self.code_of() as int)]);
        name
    }
}

impl Input {
    /// A pad with no key down.
    pub fn new() -> (input: Input)
        ensures
            input.keys@ == no_keys(),
    {
        let input = Input { keys: [false; 16] };
        assert(input.keys@ =~= no_keys());
        input
    }

    /// Whether the key with the given code is down.
    pub fn is_pressed(&self, key: u8) -> (pressed: bool)
        requires
            key < 16,
        ensures
            pressed == self.keys@[key as int],
    {
        self.keys[key as usize]
    }

    /// Releases every key.
    pub fn clear(&mut self)
        ensures
            final(self).keys@ == no_keys(),
    {
        self.keys = [false; 16];
        assert(self.keys@ =~= no_keys());
    }

    /// Releases a key.
    pub fn key_up(&mut self, key: Key)
        ensures
            final(self).keys@ == old(self).keys@.update(key.code_of() as int, false),
    {
        self.keys[key.code() as usize] = false;
    }

    /// Presses a key.
    pub fn key_down(&mut self, key: Key)
        ensures
            final(self).keys@ == old(self).keys@.update(key.code_of() as int, true),
    {
        self.keys[key.code() as usize] = true;
    }

    /// The lowest code of a key that is down: `Some(k)` exactly when key `k` is down and no
    /// key with a lower code is, `None` exactly when no key is down.
    pub fn first_pressed(&self) -> (found: Option<u8>)
        ensures
            found == lowest_pressed(self.keys@),
            match found {
                Some(k) => k < 16 && self.keys@[k as int] && forall|j: int|
                    0 <= j < k ==> !self.keys@[j],
                None => forall|j: int| 0 <= j < 16 ==> !self.keys@[j],
            },
    {
        let mut found: Option<u8> = None;
        let mut k: u8 = 16;
        while k > 0
            invariant
                k <= 16,
                found == pressed_from(self.keys@, k as int),
                match found {
                    Some(f) => k <= f < 16 && self.keys@[f as int] && forall|j: int|
                        k <= j < f ==> !self.keys@[j],
                    None => forall|j: int| k <= j < 16 ==> !self.keys@[j],
                },
            decreases k,
        {
            k -= 1;
            if self.keys[k as usize] {
                found = Some(k);
            }
        }
        found
    }
}

} // verus!
