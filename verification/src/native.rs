//! Plain value types shared with the native window ABI.
//!
//! The host framework recognises windows and buffers by a four-character
//! magic word and a version stamp at the head of every native object; the
//! compositor's layer lists carry packed colors.  The layouts the hardware
//! sees live with the unverified adapter; here are the values themselves
//! and the arithmetic that produces them.

use vstd::prelude::*;

verus! {

/// The common header values of every native window object: a magic word
/// identifying the object kind and the structure version the object was
/// built against.
#[derive(Clone, Copy, Debug, PartialEq, Eq, Structural)]
pub struct ANativeBase {
    pub magic: u32,
    pub version: u32,
}

impl ANativeBase {
    /// Packs four characters into a magic word, first character in the
    /// most significant byte.
    pub fn magic(a: char, b: char, c: char, d: char) -> (r: u32)
        ensures
            r == (a as u32) << 24u32 | (b as u32) << 16u32 | (c as u32) << 8u32 | (d as u32),
    {
        (a as u32) << 24u32 | (b as u32) << 16u32 | (c as u32) << 8u32 | (d as u32)
    }
}

/// A packed color as the compositor's background layers carry it.
#[allow(non_camel_case_types)]
#[derive(Clone, Copy, Debug, PartialEq, Eq, Structural)]
pub struct hwc_color {
    pub r: u8,
    pub g: u8,
    pub b: u8,
    pub a: u8,
}

} // verus!
