use vstd::prelude::*;

pub mod fs_model;
pub mod greeting;
pub mod protocol;
pub mod store;

verus! {

} // verus!
