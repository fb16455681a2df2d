//! The loader's view of the process, through `findshlibs`.

use crate::identifier::NativeIdentifier;
use crate::image::{LoadedModules, RawModule};
use findshlibs::{SharedLibrary, SharedLibraryId, TargetSharedLibrary};
use vstd::prelude::*;

verus! {

/// Reads `findshlibs::TARGET_SUPPORTED`, which tells whether the crate was
/// built with an enumerator for this platform. Nothing is claimed of the
/// value.
#[verifier::external_body]
fn platform_supported() -> (supported: bool) {
    findshlibs::TARGET_SUPPORTED
}

/// Calls `TargetSharedLibrary::each` and keeps, for every module it visits and
/// in the order of the visits, what the module's `debug_id`, `name`,
/// `virtual_memory_bias` and `len` return. The loader's bias, which on the
/// platform with PDB signatures is the address of the module's base, serves as
/// base address too. Nothing is claimed of the result: it is whatever the
/// process has loaded at the moment of the call.
#[verifier::external_body]
fn enumerate_modules() -> (modules: Vec<RawModule>) {
    let mut modules = Vec::new();
    TargetSharedLibrary::each(|shlib| {
        let id = shlib.debug_id().map(|id| match id {
            SharedLibraryId::Uuid(bytes) => NativeIdentifier::UniqueUuid(bytes),
            SharedLibraryId::GnuBuildId(bytes) => NativeIdentifier::GnuBuildId(bytes),
            SharedLibraryId::PeSignature(time, size) => NativeIdentifier::PeSignature(time, size),
            SharedLibraryId::PdbSignature(guid, age) => NativeIdentifier::PdbSignature(guid, age),
        });
        let name = shlib.name().to_string_lossy().into_owned();
        let bias = shlib.virtual_memory_bias().0;
        modules.push(RawModule { id, name, base_address: bias, size: shlib.len(), bias });
    });
    modules
}

/// Enumerates the modules that are loaded into the process right now.
///
/// On a platform without an enumerator the loader is not asked at all and no
/// module is reported. Each call reads the process anew; nothing is kept from
/// one call to the next.
pub fn loaded_modules() -> (loaded: LoadedModules)
    ensures
        !loaded.supported ==> loaded.modules@.len() == 0,
{
    let supported = platform_supported();
    let modules = if supported {
        enumerate_modules()
    } else {
        Vec::new()
    };
    LoadedModules { supported, modules }
}

} // verus!
