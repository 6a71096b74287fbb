pub mod data_stores;
pub mod decimal;
pub mod error;
pub mod user;

pub use error::{AuthAPIError, UserInfoError};
pub use user::{Email, Password, User, UserModel};
pub use data_stores::{
    BannedTokenStore, LoginAttemptId, TokenStoreError, TwoFACode, TwoFACodeStore,
    TwoFACodeStoreError, UserStore, UserStoreError,
};
