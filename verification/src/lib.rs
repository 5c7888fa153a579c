//! Packaging of compiled plugin libraries into plugin bundles.
//!
//! The crate classifies a compiled shared library by reading its export
//! tables, and plans the directory tree of the bundle that a plugin host
//! expects for it. Nothing here touches the file system: every function maps
//! plain values to plain values, and the caller performs the actions that the
//! assembler asks for.
//!
//! - [`target`] chooses the platform to bundle for.
//! - [`bytes`], [`elf`], [`macho`], [`pe`] and [`symbols`] answer whether a
//!   binary exports a symbol; [`interface`] turns the answers into the list
//!   of plugin interfaces that a library implements.
//! - [`layout`] and [`plan`] say where the build leaves a library and what a
//!   bundle consists of.
//! - [`config`] and [`flags`] read what the user asked for.
//! - [`assembler`] strings these together into a run, one action at a time,
//!   and [`disk`] states what the steps of a run leave behind.
//! - [`wrapper`] holds helpers for handing text to plugin hosts.

pub mod text;
pub mod target;
pub mod bytes;
pub mod elf;
pub mod macho;
pub mod pe;
pub mod symbols;
pub mod layout;
pub mod interface;
pub mod plan;
pub mod config;
pub mod flags;
pub mod assembler;
pub mod disk;
pub mod wrapper;
