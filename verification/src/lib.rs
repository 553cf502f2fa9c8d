//! Build orchestration for a fixed embedded-style compilation target.
//!
//! The library turns a set of build options into a concrete subprocess
//! description (arguments and environment), models how the subprocess
//! outcome is reported, and resolves where the compiled artifact lands
//! and where it is copied to.  All path and flag computations are pure
//! and fully specified; the surrounding process and filesystem work is
//! left to the embedding application.

pub mod artifact;
pub mod command;
pub mod errors;
pub mod flags;
pub mod options;
pub mod path;
pub mod runner;
pub mod text;
