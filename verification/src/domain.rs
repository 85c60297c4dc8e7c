pub mod data_stores;
pub mod email;
pub mod error;
pub mod password;
pub mod user;

pub use data_stores::{
    BannedTokenStore, BannedTokenStoreError, LoginAttemptId, TwoFACode, TwoFACodeStore,
    TwoFACodeStoreError, UserStore, UserStoreError,
};
pub use email::Email;
pub use error::{AppResult, AuthAPIError, ErrorResponse};
pub use password::Password;
pub use user::User;
