use vstd::prelude::*;

verus! {

/// Where the service listens under test: any free port.
pub const APP_ADDRESS: &'static str = "127.0.0.1:0";

} // verus!
