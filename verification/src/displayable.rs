//! The next-screen requests a view can hand back to the shell around it.

use vstd::prelude::*;

verus! {

pub enum NextState {
    Debug,
    GameLaunched,
}

} // verus!
