//! The handle on the host runtime's native interface.

use vstd::prelude::*;

verus! {

#[verifier::external_type_specification]
#[verifier::external_body]
pub struct ExLibrary(libloading::Library);

/// Relies on libloading::os::unix::Library::this, which opens the running
/// program itself (`dlopen` of no file), so that the symbols of the host
/// runtime that loaded this library can be looked up through it.
#[verifier::external_body]
fn this_program() -> libloading::Library {
    libloading::os::unix::Library::this().into()
}

/// The host runtime's native interface: the library its entry points are
/// resolved from.
pub struct NodeApi {
    library: libloading::Library,
}

impl NodeApi {
    /// The library the host's entry points are looked up in.
    pub fn library(&self) -> &libloading::Library {
        &self.library
    }
}

/// The native interface of the host runtime that this program runs in.
pub fn from_host() -> NodeApi {
    NodeApi { library: this_program() }
}

} // verus!
