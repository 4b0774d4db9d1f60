//! Candidate version resolution and switching for a local version manager.
//!
//! Each candidate (a family of installable software) has installed versions
//! under `<root>/candidates/<candidate>/<version>` and a pointer named
//! `current` beside them: a symbolic link, or a copied directory where links
//! cannot be made. The library reads the pointer's state, plans the steps
//! that repoint it, and guards the removal of the version it points at. The
//! caller carries out each filesystem step and reports its result; the laws
//! in [`laws`] state what the steps achieve on a model of the filesystem.
pub mod commands;
pub mod error;
pub mod layout;
pub mod laws;
pub mod model;
pub mod ops;
pub mod path;
pub mod pointer;
pub mod registry;
pub mod switch;
pub mod text;
pub mod uninstall;
