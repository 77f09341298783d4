//! An encrypted scratch pad: a single file kept encrypted at rest with
//! AES-256 in CBC mode and PKCS-style padding.
//!
//! The crate holds the logic of the tool: derivation of key and
//! initialization vector from configured constants (`keymat`), the
//! block padding (`padding`), the streaming encryption and decryption
//! transform (`cipher`), and the state machine that sequences a whole
//! edit session (`session`).
//! Terminal input, file access and the external editor are left to the
//! surrounding program, which drives `session::session_step`.

pub mod cipher;
pub mod keymat;
pub mod padding;
pub mod session;
