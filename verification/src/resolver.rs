//! The symbol resolver: turns a library handle and an entry-point name
//! into a callable address, guarding the platform layer against null
//! handles.
//!
//! Calling any platform lookup with a null handle is undefined behaviour
//! on at least one supported OS, so the null check here must come first;
//! the platform layer is never invoked for a null handle.

use vstd::prelude::*;

use crate::errors::LoadError;
use crate::loader::MemoryLoader;

verus! {

/// Rejects a null library handle before any platform call is made.
pub fn validate_handle(handle: u64) -> (r: Result<(), LoadError>)
    ensures
        handle != 0 ==> r == Ok::<(), LoadError>(()),
        handle == 0 ==> r == Err::<(), LoadError>(LoadError::InvalidHandle),
{
    if handle == 0 {
        Err(LoadError::InvalidHandle)
    } else {
        Ok(())
    }
}

/// Classifies the address the platform reported for a named symbol: null
/// means the symbol is absent, anything else is the callable address.
pub fn classify_symbol_address(name: &String, addr: u64) -> (r: Result<u64, LoadError>)
    ensures
        addr != 0 ==> r == Ok::<u64, LoadError>(addr),
        addr == 0 ==> (r matches Err(LoadError::SymbolNotFound(n)) && n@ == name@),
{
    if addr == 0 {
        Err(LoadError::SymbolNotFound(name.clone()))
    } else {
        Ok(addr)
    }
}

/// Resolves a named symbol within a loaded library, against the in-memory
/// platform.
///
/// A null handle is rejected with `InvalidHandle` and the platform layer
/// is not invoked: its lookup counter is untouched. With a valid handle,
/// one platform lookup happens; a null address becomes `SymbolNotFound`
/// carrying the requested name, anything else is returned as the address.
pub fn resolve_symbol(ld: &mut MemoryLoader, handle: u64, name: &String) -> (r: Result<
    u64,
    LoadError,
>)
    requires
        old(ld)@.wf(),
    ensures
        final(ld)@.wf(),
        handle == 0 ==> final(ld)@ == old(ld)@ && r == Err::<u64, LoadError>(
            LoadError::InvalidHandle,
        ),
        handle != 0 ==> final(ld)@ == old(ld)@.bump_resolve(),
        handle != 0 && old(ld)@.has_symbol(name@) ==> r == Ok::<u64, LoadError>(
            old(ld)@.symbol_address(name@),
        ),
        handle != 0 && !old(ld)@.has_symbol(name@) ==> (r matches Err(
            LoadError::SymbolNotFound(n),
        ) && n@ == name@),
{
    if handle == 0 {
        return Err(LoadError::InvalidHandle);
    }
    let addr = ld.resolve(handle, name);
    proof {
        crate::loader::lemma_symbol_address_nonnull(old(ld)@, name@);
    }
    classify_symbol_address(name, addr)
}

} // verus!
