pub use crate::domain::data_stores::{BannedTokenStore, TokenStoreError};
