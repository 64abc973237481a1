//! Resolution core of the Deno tool plugin: which versions exist, which
//! artifact to download for a platform, and where the executable lives.

pub mod catalog;
pub mod download;
pub mod error;
pub mod laws;
pub mod locate;
pub mod platform;
pub mod text;
pub mod version;
