//! Bounds-checked decoding of two binary layouts found in account data:
//! the tag-length-value extensions that follow a token mint or token
//! account, and the instruction list held by the instructions sysvar.
pub mod layout;
pub mod extensions;
pub mod error;
pub mod account;
pub mod instructions;
