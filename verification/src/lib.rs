pub mod domain;
pub mod routes;
pub mod services;
pub mod text;

pub use domain::ErrorResponse;
