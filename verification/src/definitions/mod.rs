//! Plain data carried between the components.

pub mod metadata;
pub mod request;
pub mod user;
