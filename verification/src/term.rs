//! The terminal controller's decisions: the raw-mode line-discipline
//! transform, the pending-input test, and arrow-key decoding.
//!
//! The controller saves the terminal's original settings once at startup
//! and writes them back once at exit; the device-control calls that read
//! and write them happen outside the library, which only computes the
//! modified settings.

use vstd::prelude::*;

verus! {

/// Canonical ("cooked") input flag in `lflag`.
pub const ICANON: u32 = 0x2;

/// Local-echo flag in `lflag`.
pub const ECHO: u32 = 0x8;

/// A terminal's line-discipline settings, as the device-control calls
/// exchange them.
#[derive(Clone, Copy, Debug)]
pub struct Termios {
    /// Input-mode flags.
    pub iflag: u32,
    /// Output-mode flags.
    pub oflag: u32,
    /// Control-mode flags.
    pub cflag: u32,
    /// Local-mode flags; canonical input and echo live here.
    pub lflag: u32,
    /// Line-discipline number.
    pub line: u8,
    /// Control characters.
    pub cc: [u8; 19],
}

/// The raw-mode variant of `t`: canonical input and echo switched off,
/// everything else as it was. Writing the original `t` back restores
/// cooked mode.
pub fn make_raw(t: &Termios) -> (r: Termios)
    ensures
        r.lflag == t.lflag & !(ICANON | ECHO),
        r.iflag == t.iflag,
        r.oflag == t.oflag,
        r.cflag == t.cflag,
        r.line == t.line,
        r.cc == t.cc,
{
    let mut r = *t;
    r.lflag = r.lflag & !ICANON;
    r.lflag = r.lflag & !ECHO;
    proof {
        let l = t.lflag;
        assert((l & !0x2u32) & !0x8u32 == l & !(0x2u32 | 0x8u32)) by (bit_vector);
    }
    r
}

/// The pending-input poll: the device-control query returned `n` queued
/// bytes; there is something to read exactly when `n` is not zero.
pub fn has_pending_input(n: i32) -> (r: bool)
    ensures
        r <==> n != 0,
{
    n != 0
}

/// The direction an arrow-key final byte selects: `A` up (north), `B` down
/// (south), `C` right (east), `D` left (west); anything else is no arrow.
pub open spec fn arrow_direction(b: u8) -> Option<u8> {
    if b == 65 {
        Some(3u8)
    } else if b == 66 {
        Some(1u8)
    } else if b == 67 {
        Some(0u8)
    } else if b == 68 {
        Some(2u8)
    } else {
        None
    }
}

/// Decode the two bytes that followed a literal escape (27): they name an
/// arrow key exactly when the first is `[` and the second one of `A`..`D`.
/// Everything else is ignored.
pub fn decode_escape(b1: u8, b2: u8) -> (r: Option<u8>)
    ensures
        r == (if b1 == 91 {
            arrow_direction(b2)
        } else {
            None::<u8>
        }),
        r is Some ==> r->0 < 4,
{
    if b1 != 91 {
        return None;
    }
    if b2 == 65 {
        Some(3)
    } else if b2 == 66 {
        Some(1)
    } else if b2 == 67 {
        Some(0)
    } else if b2 == 68 {
        Some(2)
    } else {
        None
    }
}

} // verus!
