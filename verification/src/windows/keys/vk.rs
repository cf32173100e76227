//! Virtual-key codes, from `WinUser.h`. Part of the Win32 ABI; they cannot
//! change.
use vstd::prelude::*;

verus! {

pub const BACK: u32 = 0x08;
pub const RETURN: u32 = 0x0D;
pub const ESCAPE: u32 = 0x1B;
pub const DELETE: u32 = 0x2E;
pub const KEY_0: u32 = 0x30;
pub const KEY_1: u32 = 0x31;
pub const KEY_2: u32 = 0x32;
pub const KEY_3: u32 = 0x33;
pub const KEY_4: u32 = 0x34;
pub const KEY_5: u32 = 0x35;
pub const KEY_6: u32 = 0x36;
pub const KEY_7: u32 = 0x37;
pub const KEY_8: u32 = 0x38;
pub const KEY_9: u32 = 0x39;
pub const A: u32 = 0x41;
pub const C: u32 = 0x43;
pub const D: u32 = 0x44;
pub const E: u32 = 0x45;
pub const G: u32 = 0x47;
pub const H: u32 = 0x48;
pub const O: u32 = 0x4F;
pub const P: u32 = 0x50;
pub const Q: u32 = 0x51;
pub const R: u32 = 0x52;
pub const S: u32 = 0x53;
pub const T: u32 = 0x54;
pub const U: u32 = 0x55;
pub const W: u32 = 0x57;
pub const X: u32 = 0x58;
pub const Z: u32 = 0x5A;
pub const OEM_MINUS: u32 = 0xBD;
pub const OEM_PLUS: u32 = 0xBB;
pub const OEM_4: u32 = 0xDB;
pub const OEM_6: u32 = 0xDD;

} // verus!
