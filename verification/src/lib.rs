//! Authenticated encryption of files and their names, in place.
//!
//! A [`crypter::Crypter`] seals a file's contents and its base name under one
//! 256-bit key, each with a nonce of its own, and reverses both when it is
//! given the key. [`unit`] holds the way from a plain file to a sealed one
//! and back; [`nonce`], [`encoding`] and [`cipher`] hold the nonce counter,
//! the hex text form and the cipher calls it is built from; [`files`] and
//! [`cli`] hold the rules of the traversal around the engine.

pub mod cipher;
pub mod cli;
pub mod crypter;
pub mod encoding;
pub mod error;
pub mod files;
pub mod nonce;
pub mod unit;
