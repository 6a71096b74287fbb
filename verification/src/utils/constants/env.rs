use vstd::prelude::*;

verus! {

/// The environment variable that holds the secret that signs tokens.
pub const JWT_SECRET_ENV_VAR: &'static str = "JWT_SECRET";

} // verus!
