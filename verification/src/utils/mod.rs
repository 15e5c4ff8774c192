//! Commands and their results, the texts that go into commands, and the
//! reading of the extension manifest.

pub mod cmd_builder;
pub mod json;
pub mod os_discover;
pub mod text;
