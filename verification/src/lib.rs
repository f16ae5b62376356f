//! Path confinement for sandboxed processes.
//!
//! A sandbox has a mount table: a list of virtual path prefixes, each with the
//! host path that stands behind it. A shim inside the sandboxed process
//! intercepts the calls of the C library that take paths and rewrites the
//! paths through the table; a control plane creates and destroys sandboxes and
//! runs commands in them.
//!
//! * [`config`]: the mount table.
//! * [`path_remapper`]: remapping of paths through a mount table, the laws it
//!   obeys, and the one it does not.
//! * [`interpose`]: the results of intercepted calls and what becomes of the
//!   error slot.
//! * [`filesystem`]: the intercepted entry points and what their replacements
//!   decide.
//! * [`signature`]: the return type that a function must declare to become a
//!   replacement.
//! * [`stack_walk`]: telling the shim's own calls from those of the program.
//! * [`sandbox`]: the registry of sandboxes.
//! * [`vfs`]: the interface of a virtual file system.
//! * [`text`]: the string operations under all of these.

pub mod config;
pub mod filesystem;
pub mod interpose;
pub mod path_remapper;
pub mod sandbox;
pub mod signature;
pub mod stack_walk;
pub mod text;
pub mod vfs;
