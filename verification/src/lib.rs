//! Connection descriptors for a watch-only wallet.
//!
//! A signing device hands a companion application the address of an account
//! and its private view key, optionally sealed under a PIN. This library holds
//! the path from the caller's buffers to the serialized descriptor: it checks
//! widths and encodings, decides what is asked of the key library and of the
//! cipher, and assembles the descriptor.

pub mod boundary;
pub mod connect;
pub mod descriptor;
pub mod encoded;
pub mod error;
pub mod hex_text;
pub mod json;
pub mod keys;
