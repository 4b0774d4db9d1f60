//! The library side of each command of the `sdk` tool.
pub mod current;
pub mod default;
pub mod help;
pub mod home;
pub mod uninstall;
pub mod version;
