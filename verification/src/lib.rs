//! Repository initialisation and storage-layout resolution for content-addressed
//! object repositories.
//!
//! The functions of this crate carry contracts that Verus proves. Three of
//! them are taken on trust instead, because their bodies call code that Verus
//! does not read: the digest and the general error come from the `rocfl`
//! crate, and a character is appended by std. Each says so where it stands.
//!
//! Nothing here touches the filesystem: callers observe the storage root, hand
//! the observation in as plain values, and carry out the actions that come back.

pub mod digest;
pub mod error;
pub mod init;
pub mod layout;
pub mod mapping;
pub mod number;
pub mod root;
pub mod sanitize;
pub mod text;
