//! Monitor of UPower device properties: the property model, the per-device
//! target configuration, the bus subscription filter and the output line format.
use vstd::prelude::*;

pub mod text;
pub mod property;
pub mod config;
pub mod filter;
pub mod output;

verus! {

} // verus!
