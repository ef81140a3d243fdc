//! Windows virtual-key codes of the function keys that editing a composition answers to.

use vstd::prelude::*;

verus! {

/// Backspace.
pub const BACK: u32 = 0x08;

/// Tab.
pub const TAB: u32 = 0x09;

/// Enter.
pub const RETURN: u32 = 0x0D;

/// Esc.
pub const ESCAPE: u32 = 0x1B;

/// Page Up.
pub const PRIOR: u32 = 0x21;

/// Page Down.
pub const NEXT: u32 = 0x22;

/// End.
pub const END: u32 = 0x23;

/// Home.
pub const HOME: u32 = 0x24;

/// Left arrow.
pub const LEFT: u32 = 0x25;

/// Up arrow.
pub const UP: u32 = 0x26;

/// Right arrow.
pub const RIGHT: u32 = 0x27;

/// Down arrow.
pub const DOWN: u32 = 0x28;

} // verus!
