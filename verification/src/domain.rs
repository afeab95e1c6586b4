//! Domain value objects and the store interfaces.

pub mod data_stores;
pub mod email;
pub mod error;
pub mod password;
pub mod user;

pub use email::Email;
pub use error::AuthAPIError;
pub use password::Password;
pub use user::User;
