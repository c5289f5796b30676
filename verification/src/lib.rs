use vstd::prelude::*;

pub mod config;
pub mod dispatch;
pub mod event;
pub mod paths;
pub mod sync;

verus! {

/// A configuration value threaded read-only through every component: the
/// watch root, the mirror target, and whether a whole-tree sync runs first.
pub struct Config {
    pub src: String,
    pub dest: String,
    pub bootstrap: bool,
}

} // verus!
