//! Runtime loading of a shared library and resolution of its symbols.
//!
//! The operating system's loader calls themselves stand at the edge of the
//! program; this crate decides what their results mean: when a handle counts
//! as open, when a symbol was found, which diagnostic is reported, and when the
//! process-wide slot opens the library (once, and only once).
use vstd::prelude::*;

pub mod dynload;
pub mod slot;

pub use dynload::{describe_failure, Error, Library, Symbol};
pub use slot::{is_loaded, load, load_step, with_lib, LibrarySlot, LoadStep};

verus! {

/// The version of the loaded library.
#[derive(Debug, Clone, Copy, PartialEq, Eq, Structural)]
pub struct Version {
    pub major: i32,
    pub minor: i32,
    pub patch: i32,
}

impl Version {
    /// The version of the library held by `slot`, as `read` queries it from
    /// the library's own entry points; `UsedBeforeLoaded` where none is held.
    pub fn get<F: Fn(&Library) -> Version>(slot: &LibrarySlot, read: F) -> (r: Result<
        Version,
        Error,
    >)
        requires
            forall|lib: &Library| #[trigger] read.requires((lib,)),
        ensures
            r is Ok <==> slot@ matches Some(Some(_)),
            r matches Err(e) ==> e == Error::UsedBeforeLoaded,
            r matches Ok(v) ==> exists|lib: Library|
                slot@ == Some(Some(lib@)) && #[trigger] read.ensures((&lib,), v),
    {
        with_lib(slot, read)
    }
}

} // verus!
