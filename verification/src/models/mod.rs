//! Models shared by requests and responses.
pub mod dispatch;
