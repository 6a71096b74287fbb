//! Sign-up, log-in, two-factor and token-ban logic of an authentication
//! service, with the stores it keeps and the decisions its routes make.

pub mod domain;
pub mod laws;
pub mod routes;
pub mod services;
pub mod utils;

use vstd::prelude::*;

verus! {

} // verus!
