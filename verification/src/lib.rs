//! A verified core for a command-watching terminal view.
//!
//! The library owns the logic of the watch session: building the shell
//! command line, turning a child process's captured output into a cycle
//! result, laying out the screen as a sequence of render directives, and
//! driving the session state machine that decides when to render, wait,
//! and terminate. The unverifiable edges (terminal control, process
//! spawning, event polling) live outside and call into this core.

pub mod config;
pub mod cycle;
pub mod machine;
pub mod render;
pub mod text;

use vstd::prelude::*;

verus! {

/// The column at which a `len`-character message starts when right-aligned
/// on a row of `width` columns; a message wider than the row starts at 0.
pub open spec fn spec_align_col(width: u16, len: nat) -> u16 {
    if len <= width { (width - len) as u16 } else { 0 }
}

/// Computes the starting column for right-aligned text on a row.
pub fn align_col(width: u16, len: usize) -> (col: u16)
    ensures
        col == spec_align_col(width, len as nat),
{
    if len <= width as usize {
        width - len as u16
    } else {
        0
    }
}

} // verus!
