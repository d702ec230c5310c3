//! An interactive, incremental-search command prompt.
//!
//! The library holds the verified core of a dictionary-lookup prompt: an
//! editable, codepoint-addressed text buffer, a bounded selection index for
//! the candidate dropdown, a debounce controller that decides when an
//! autocomplete request may be issued and which response is still current,
//! the event-multiplexer state machine that ties them together, and a
//! renderer that describes every redraw as a list of relative terminal
//! motions.  The surrounding binary owns the terminal, the timers and the
//! network, feeds events in and carries commands out.

pub mod api;
pub mod colorize;
pub mod debounce;
pub mod lang;
pub mod multiplexer;
pub mod render;
pub mod resp;
pub mod selection;
pub mod strutil;
pub mod text_buffer;

use vstd::prelude::*;

verus! {

/// Smaller of two machine integers, used by the selection and render
/// contracts to bound the visible part of the candidate list.
pub open spec fn min_usize(a: usize, b: usize) -> usize {
    if a <= b {
        a
    } else {
        b
    }
}

} // verus!
