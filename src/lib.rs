//! Response-body interception for an HTTP middleware chain, and a thread-local shared-data
//! accessor, with their decisions stated and proved.
use vstd::prelude::*;

pub mod local_data;
pub mod middleware;
pub mod laws;

verus! {

} // verus!
