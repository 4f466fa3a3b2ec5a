//! Bulk AES-256 file encryption and decryption engine.
//!
//! The engine encrypts or decrypts the files of a directory tree (or a single
//! file) under a password-derived key, preserving the sub-directory structure
//! at a target location.  It supports an authenticated mode (AES-256-GCM, with
//! a fresh 12-byte nonce appended to each ciphertext) and an unauthenticated
//! mode (AES-256-ECB with block padding), key derivation through Argon2id or
//! PBKDF2-HMAC-SHA256, guaranteed key zeroization, and per-file
//! success/failure accounting under partial-failure conditions.
//!
//! All file and terminal I/O lives outside this crate: callers hand the engine
//! plain values (paths as byte strings, file contents as byte vectors) and
//! perform the reads, writes and deletions that the engine's decisions call
//! for.

pub mod cipher;
pub mod collect;
pub mod config;
pub mod log;
pub mod paths;
pub mod pipeline;
pub mod progress;
pub mod secrets;
