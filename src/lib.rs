use vstd::prelude::*;

pub mod address;
pub mod error;
pub mod guard;
pub mod laws;
pub mod ledger;
pub mod model;

verus! {

} // verus!
