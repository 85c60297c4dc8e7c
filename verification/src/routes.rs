pub mod login;
pub mod logout;
pub mod signup;
pub mod verify_token;

pub use login::{login, LoginRequest, LoginResponse, TwoFactorAuthResponse};
pub use logout::logout;
pub use signup::{signup, SignupRequest, SignupResponse};
pub use verify_token::{verify_token, VerifyTokenRequest};
