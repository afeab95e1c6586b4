//! The operations the service offers, one module per endpoint: the
//! computing core of each, stated and proved over the stores' views. The
//! boundary layer only parses requests, supplies the clock, and maps
//! outcomes to transport responses.

pub mod login;
pub mod logout;
pub mod signup;
pub mod verify_2fa;
pub mod verify_token;
