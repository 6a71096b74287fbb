pub mod assoc;
pub mod banned_token_store;
pub mod hashmap_two_fa_code_store;
pub mod hashmap_user_store;
pub mod hashset_banned_token_store;

pub use crate::domain::{UserStore, UserStoreError};
pub use banned_token_store::{BannedTokenStore, TokenStoreError};
pub use hashmap_two_fa_code_store::HashmapTwoFACodeStore;
pub use hashmap_user_store::HashMapUserStore;
pub use hashset_banned_token_store::HashsetBannedTokenStore;
