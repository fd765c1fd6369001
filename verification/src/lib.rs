//! Identity and secure-data core of the Bier backend: e-mail sanitisation,
//! input validation, credential hashing, authenticated encryption of stored
//! blobs, signed session tokens and single-use expiring tokens.

pub mod access;
pub mod auth;
pub mod chat;
pub mod cipher;
pub mod client;
pub mod clock;
pub mod credential;
pub mod definitions;
pub mod email;
pub mod encoding;
pub mod error;
pub mod flows;
pub mod ids;
pub mod random;
pub mod sanitization;
pub mod sessions;
pub mod storage;
pub mod table;
pub mod text;
pub mod tokens;
pub mod validation;
