//! Stores in memory, and what the stores behind a network compute.

pub mod hash_map_user_store;
pub mod hash_set_banned_token_store;
pub mod hashmap_two_fa_code_store;
pub mod mock_email_client;
pub mod postgres_user_store;
pub mod redis_banned_token_store;
pub mod redis_two_fa_code_store;

pub use hash_map_user_store::HashmapUserStore;
pub use hash_set_banned_token_store::HashSetBannedTokenStore;
pub use hashmap_two_fa_code_store::HashmapTwoFACodeStore;
pub use mock_email_client::MockEmailClient;
