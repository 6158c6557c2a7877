pub mod criteria;
pub mod engine;
pub mod interest;
pub mod modules;
pub mod objects;
pub mod pattern;
pub mod resolver;
pub mod supervisor;
pub mod text;

use vstd::prelude::*;

verus! {

/// How the program is asked to operate: perform a cleanup pass, or only
/// dump diagnostic information about the live system objects.
pub enum Mode {
    Run,
    Dump,
}

/// The read-only configuration shared by every module run.
pub struct State {
    /// Directory that holds the executable; the offline cache and the dump
    /// files live in subdirectories of it.
    pub current_path: String,
    /// Whether the session may prompt the user.
    pub interactive: bool,
    /// Whether uninstall actions are suppressed and only announced.
    pub dry_run: bool,
    /// Whether the offline identifier cache may be read and written.
    pub use_cache: bool,
    /// Whether identifier lists may be fetched over the network.
    pub allow_updates: bool,
}

} // verus!
