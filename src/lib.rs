use vstd::prelude::*;

pub mod layout;
pub mod plan;
pub mod protocol;

verus! {

} // verus!
