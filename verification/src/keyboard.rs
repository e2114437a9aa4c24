//! The sixteen-key hexadecimal keypad and its place on a physical keyboard.
//!
//! The keypad is laid over the left of a QWERTY keyboard, row by row:
//!
//! ```text
//! 1 2 3 C        1 2 3 4
//! 4 5 6 D   on   Q W E R
//! 7 8 9 E        A S D F
//! A 0 B F        Z X C V
//! ```

use vstd::prelude::*;

verus! {

/// A physical key, identified by its position on the keyboard and not by the
/// character printed on it. `code` is the key's usage code in the USB HID
/// keyboard page, the numbering that windowing libraries report.
#[derive(Clone, Copy, Debug, PartialEq, Eq, Structural)]
pub struct Scancode {
    pub code: i32,
}

pub const CODE_A: i32 = 4;

pub const CODE_C: i32 = 6;

pub const CODE_D: i32 = 7;

pub const CODE_E: i32 = 8;

pub const CODE_F: i32 = 9;

pub const CODE_Q: i32 = 20;

pub const CODE_R: i32 = 21;

pub const CODE_S: i32 = 22;

pub const CODE_V: i32 = 25;

pub const CODE_W: i32 = 26;

pub const CODE_X: i32 = 27;

pub const CODE_Z: i32 = 29;

pub const CODE_NUM1: i32 = 30;

pub const CODE_NUM2: i32 = 31;

pub const CODE_NUM3: i32 = 32;

pub const CODE_NUM4: i32 = 33;

/// The physical key of each keypad key, indexed by the keypad key's value.
pub open spec fn keypad_layout() -> Seq<Scancode> {
    seq![
        Scancode { code: CODE_X },
        Scancode { code: CODE_NUM1 },
        Scancode { code: CODE_NUM2 },
        Scancode { code: CODE_NUM3 },
        Scancode { code: CODE_Q },
        Scancode { code: CODE_W },
        Scancode { code: CODE_E },
        Scancode { code: CODE_A },
        Scancode { code: CODE_S },
        Scancode { code: CODE_D },
        Scancode { code: CODE_Z },
        Scancode { code: CODE_C },
        Scancode { code: CODE_NUM4 },
        Scancode { code: CODE_R },
        Scancode { code: CODE_F },
        Scancode { code: CODE_V },
    ]
}

/// Whether keypad key `hex` is held down, given the physical keys that are
/// held down. A value above 0xF names no key and is never held.
pub open spec fn key_held(pressed: Seq<Scancode>, hex: u8) -> bool {
    hex <= 0xF && pressed.contains(keypad_layout()[hex as int])
}

/// The physical key that carries keypad key `hex`.
pub fn hex_to_scancode(hex: u8) -> (scancode: Scancode)
    requires
        hex <= 0xF,
    ensures
        scancode == keypad_layout()[hex as int],
{
    let codes = [
        Scancode { code: CODE_X },
        Scancode { code: CODE_NUM1 },
        Scancode { code: CODE_NUM2 },
        Scancode { code: CODE_NUM3 },
        Scancode { code: CODE_Q },
        Scancode { code: CODE_W },
        Scancode { code: CODE_E },
        Scancode { code: CODE_A },
        Scancode { code: CODE_S },
        Scancode { code: CODE_D },
        Scancode { code: CODE_Z },
        Scancode { code: CODE_C },
        Scancode { code: CODE_NUM4 },
        Scancode { code: CODE_R },
        Scancode { code: CODE_F },
        Scancode { code: CODE_V },
    ];
    codes[hex as usize]
}

/// The value of the keypad key that sits on a physical key, or `None` for
/// a key that carries no keypad key.
pub fn scancode_to_value(scancode: Scancode) -> (value: Option<u8>)
    ensures
        match value {
            Some(hex) => hex <= 0xF && keypad_layout()[hex as int] == scancode,
            None => forall|hex: int| 0 <= hex <= 0xF ==> keypad_layout()[hex] != scancode,
        },
{
    let code = scancode.code;
    if code == CODE_NUM1 {
        Some(0x1)
    } else if code == CODE_NUM2 {
        Some(0x2)
    } else if code == CODE_NUM3 {
        Some(0x3)
    } else if code == CODE_NUM4 {
        Some(0xC)
    } else if code == CODE_Q {
        Some(0x4)
    } else if code == CODE_W {
        Some(0x5)
    } else if code == CODE_E {
        Some(0x6)
    } else if code == CODE_R {
        Some(0xD)
    } else if code == CODE_A {
        Some(0x7)
    } else if code == CODE_S {
        Some(0x8)
    } else if code == CODE_D {
        Some(0x9)
    } else if code == CODE_F {
        Some(0xE)
    } else if code == CODE_Z {
        Some(0xA)
    } else if code == CODE_X {
        Some(0x0)
    } else if code == CODE_C {
        Some(0xB)
    } else if code == CODE_V {
        Some(0xF)
    } else {
        None
    }
}

/// Whether keypad key `hex` is held down, given the physical keys that are
/// held down.
pub fn is_hex_key_pressed(pressed: &Vec<Scancode>, hex: u8) -> (held: bool)
    ensures
        held == key_held(pressed@, hex),
{
    if hex > 0xF {
        return false;
    }
    let code = hex_to_scancode(hex);
    let mut i: usize = 0;
    while i < pressed.len()
        invariant
            i <= pressed@.len(),
            hex <= 0xF,
            code == keypad_layout()[hex as int],
            forall|j: int| 0 <= j < i ==> pressed@[j] != code,
        decreases pressed@.len() - i,
    {
        if pressed[i].code == code.code {
            assert(pressed@[i as int] == code);
            return true;
        }
        i += 1;
    }
    false
}

} // verus!
