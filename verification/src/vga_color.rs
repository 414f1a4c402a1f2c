//! The 16 VGA text-mode colors. A cell's color byte packs a foreground from
//! this palette in its low nibble and a background in its high nibble.

use vstd::prelude::*;

verus! {

pub const BLACK: u8 = 0x0;

pub const BLUE: u8 = 0x1;

pub const GREEN: u8 = 0x2;

pub const CYAN: u8 = 0x3;

pub const RED: u8 = 0x4;

pub const MAGENTA: u8 = 0x5;

pub const BROWN: u8 = 0x6;

pub const LIGHT_GRAY: u8 = 0x7;

pub const DARK_GRAY: u8 = 0x8;

pub const LIGHT_BLUE: u8 = 0x9;

pub const LIGHT_GREEN: u8 = 0xA;

pub const LIGHT_CYAN: u8 = 0xB;

pub const LIGHT_RED: u8 = 0xC;

pub const LIGHT_MAGENTA: u8 = 0xD;

pub const YELLOW: u8 = 0xE;

pub const WHITE: u8 = 0xF;

} // verus!
