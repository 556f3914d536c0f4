//! Temporarily redirects a host's outbound traffic through a local SOCKS5
//! endpoint by rewriting the desktop's or the OS's proxy configuration, and
//! restores the prior configuration afterwards.
//!
//! The configuration stores are modelled in memory (`SystemConfig`); every
//! operation is specified over the ghost model `SystemModel`.
pub mod text;
pub mod detect;
pub mod store;
pub mod backup;
pub mod gnome;
pub mod kde;
pub mod env_proxy;
pub mod windows;
pub mod manager;
pub mod laws;
pub mod launcher;
