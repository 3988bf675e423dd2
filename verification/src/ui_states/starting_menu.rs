//! The state behind the starting menu screen.

use vstd::prelude::*;

verus! {

pub struct StartingMenuState;

} // verus!
