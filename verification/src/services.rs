//! Concrete, volatile, in-memory implementations of the store
//! interfaces.

pub mod hashmap_two_fa_code_store;
pub mod hashmap_user_store;
pub mod hashset_banned_token_store;
