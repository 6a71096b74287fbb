pub mod signup;

pub use signup::{signup_handler, SignupRequest, SignupResponse};
pub mod login;

pub use login::{
    handle_2fa, handle_no_2fa, login_handler, LoginRequest, LoginResponse, LoginStep,
    TwoFactorAuthResponse,
};
pub mod logout;
pub mod verify_2fa;
pub mod verify_token;

pub use logout::logout_handler;
pub use verify_2fa::{cookie_response, verify_2fa_handler, Verify2FARequest};
pub use verify_token::{verify_token_handler, VerifyTokenRequest};
