//! Building blocks of the Divvun installer bundler: the texts (property lists,
//! installer distributions, NSIS scripts) and command lines that the
//! macOS and Windows installers are made from.

pub mod archive;
pub mod targets;
pub mod template;
pub mod text;
