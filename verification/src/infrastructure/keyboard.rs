//! Constants of the simulated paste keystroke.

use vstd::prelude::*;

verus! {

/// Virtual keycode of the V key on macOS.
pub const K_VK_V: u16 = 0x09;

/// Delay between the key-down and the key-up event, in milliseconds.
pub const KEY_EVENT_DELAY_MS: u64 = 10;

/// Delay between writing the clipboard and simulating the paste, in
/// milliseconds.
pub const CLIPBOARD_SETTLE_MS: u64 = 20;

} // verus!
