use vstd::prelude::*;

verus! {

/// Where the service listens in production.
pub const APP_ADDRESS: &'static str = "0.0.0.0:3000";

} // verus!
