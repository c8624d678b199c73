//! Configuration, console and version logic of a SIP PBX, with contracts.

pub mod config;
pub mod console;
pub mod version;
pub mod text;
