//! Access control for shared machines: who may log in, what an identity may
//! do, and in which state each machine is.

pub mod access;
pub mod api;
pub mod auth;
pub mod config;
pub mod error;
pub mod ident;
pub mod login_laws;
pub mod machine;
pub mod registry_laws;
