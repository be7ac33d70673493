//! Verified core of TUF (The Update Framework) signature validation for
//! channel manifests: configuration, toolchain manifest locations, and the
//! policy that decides when a verification failure may be tolerated.

pub mod text;
pub mod config;
pub mod time;
pub mod manifest;
pub mod provider;
