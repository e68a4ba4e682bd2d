//! Decision core of an AUR helper: given a package name, decide whether the
//! official repository already carries it, and otherwise resolve it against
//! the community repository, fetch its build recipe into a cached per-package
//! workspace, and build it.
//!
//! Every rule of the pipeline lives here as verified code: package-name
//! validation, the cache layout, the probe classification, the metadata
//! lookup's response handling, and the orchestrating state machine. The
//! surrounding binary only performs the I/O that the state machine asks for
//! (spawning processes, one HTTP request, directory creation) and feeds the
//! results back as events.

pub mod aur;
pub mod cache;
pub mod install;
pub mod cmd;
pub mod name;
pub mod repo;
