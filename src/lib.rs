use vstd::prelude::*;

pub mod paint;
pub mod window;

verus! {

} // verus!
