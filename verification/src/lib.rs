//! Face-based login for a pluggable authentication framework: the encrypted
//! per-user embedding store, the secret-key lifecycle, the helper protocol
//! that fetches the key under the user's own identity, and the state machine
//! that polls camera frames against a deadline.
pub mod auth;
pub mod auto_enroll;
pub mod capture;
pub mod cli;
pub mod codec;
pub mod comparer;
pub mod config;
pub mod device;
pub mod doctor;
pub mod enrollment;
pub mod errors;
pub mod extractor;
pub mod frame;
pub mod keyring;
pub mod logind;
pub mod output;
pub mod scalar;
pub mod secret_helper;
pub mod secret_service;
pub mod store;
pub mod text;
