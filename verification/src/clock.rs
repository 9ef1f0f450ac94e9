//! The clock widget's state. The clock merely displays the current wall
//! time, which the surrounding application reads and renders; it keeps no
//! state of its own.

use vstd::prelude::*;

verus! {

/// The (stateless) clock widget.
pub struct Clock;

impl Clock {
    pub fn new() -> Clock {
        Clock
    }
}

impl Default for Clock {
    fn default() -> Clock {
        Clock
    }
}

} // verus!
