//! The core of a newsletter service: the rules for a subscriber's name, the
//! record kept of a subscriber, the conversation with the store that holds
//! the records, and the failures that a client is told of.

pub mod configuration;
pub mod error;
pub mod models;
pub mod request_id;
pub mod storage;
pub mod table;
pub mod text;
pub mod validator;

pub use crate::error::AppError;
pub use crate::models::subscriber;
pub use crate::storage::Storage;
pub use crate::validator::validate_name;
