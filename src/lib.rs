//! Verified core of a minimal GPU rendering host: the immediate-constant
//! block handed to the shaders, the choice of surface capabilities, the
//! surface configuration kept coherent with the window, and the decisions
//! of the per-frame acquire / present cycle.
use vstd::prelude::*;

pub mod capabilities;
pub mod error;
pub mod format;
pub mod immediate;
pub mod renderer;

verus! {

} // verus!
