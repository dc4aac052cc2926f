//! A catalogue of remote-host connection profiles, kept encrypted at rest,
//! together with the decision logic of the interactive relay and of chunked
//! file transfer.

pub mod crypto;
pub mod dashboard;
pub mod format;
pub mod import;
pub mod json;
pub mod menu;
pub mod profile;
pub mod relay;
pub mod render;
pub mod store;
pub mod text;
pub mod transfer;
