//! One frame's worth of polled input, as plain booleans: the level-triggered
//! "key held" facts and the edge-triggered "key just pressed" facts the games
//! react to.

use vstd::prelude::*;

verus! {

#[derive(Clone, Copy, Debug, PartialEq, Eq, Structural)]
pub struct Input {
    /// Left arrow held this frame.
    pub left: bool,
    /// Right arrow held this frame.
    pub right: bool,
    /// Up arrow (thrust) held this frame.
    pub up: bool,
    /// Down arrow (reverse thrust) held this frame.
    pub down: bool,
    /// Fire key pressed this frame (edge-triggered).
    pub fire: bool,
    /// Pause key pressed this frame (edge-triggered).
    pub pause: bool,
    /// Restart key pressed this frame (edge-triggered).
    pub restart: bool,
}

impl Input {
    /// A frame with no key held or pressed.
    pub fn none() -> (i: Input)
        ensures
            i == (Input {
                left: false,
                right: false,
                up: false,
                down: false,
                fire: false,
                pause: false,
                restart: false,
            }),
    {
        Input {
            left: false,
            right: false,
            up: false,
            down: false,
            fire: false,
            pause: false,
            restart: false,
        }
    }
}

} // verus!
