pub mod hashmap_two_fa_code_store;
pub mod hashmap_user_store;

pub use hashmap_two_fa_code_store::HashmapTwoFACodeStore;
pub use hashmap_user_store::HashmapUserStore;
