//! A minimal terminal text viewer core: documents made of immutable rows,
//! a cursor moved by bounded, clamping commands, a viewport that scrolls
//! just enough to keep the cursor visible, and pure rendering of each
//! visible line plus status and message bars.
use vstd::prelude::*;

pub mod document;
pub mod editor;
pub mod render;
pub mod row;

verus! {

/// Startup configuration: the optional path of the file to view.
pub struct Config {
    pub fpath: Option<String>,
}

/// Maps a character to the byte its control-key chord produces
/// (the low five bits of its code), e.g. ctrl-q.
pub fn to_ctrl_byte(c: char) -> (b: u8)
    ensures
        b == (c as u8) & 0x1f,
{
    let byte: u8 = c as u8;
    byte & 0x1f
}

} // verus!
