pub mod env;
pub mod prod;
pub mod test;

use vstd::prelude::*;

verus! {

/// The name of the cookie that carries the auth token.
pub const JWT_COOKIE_NAME: &'static str = "jwt";

} // verus!
