//! Non-null engine addresses.

use crate::tsk::error::{bridges, try_get_tsk_error, TskErrorKind, TskResult};
use vstd::prelude::*;

verus! {

/// The address of an engine resource. It is never null.
#[derive(Clone, Copy, Debug)]
pub struct Handle {
    addr: usize,
}

impl Handle {
    #[verifier::type_invariant]
    spec fn non_null(&self) -> bool {
        self.addr != 0
    }

    /// The address.
    pub closed spec fn spec_addr(&self) -> usize {
        self.addr
    }

    /// Wraps `addr` unless it is null.
    pub fn new(addr: usize) -> (handle: Option<Handle>)
        ensures
            addr == 0 <==> handle is None,
            handle matches Some(h) ==> h.spec_addr() == addr,
    {
        if addr == 0 {
            None
        } else {
            Some(Handle { addr })
        }
    }

    /// The address.
    #[verifier::when_used_as_spec(spec_addr)]
    pub fn addr(&self) -> (addr: usize)
        ensures
            addr == self.spec_addr(),
            addr != 0,
    {
        proof {
            use_type_invariant(self);
        }
        self.addr
    }
}

/// Turns the address that a foreign call handed back into a handle, or, where
/// the address is null, into the error that the diagnostic slot describes.
///
/// The slot is read only where the address is null.
pub fn get_tsk_result<E>(
    result: usize,
    kind: TskErrorKind,
    error_get: E,
) -> (checked: TskResult<Handle>) where
    E: FnOnce() -> Option<Vec<u8>>,

    requires
        result == 0 ==> call_requires(error_get, ()),
    ensures
        result != 0 ==> (checked matches Ok(handle) && handle.spec_addr() == result),
        result == 0 ==> (checked matches Err(error) && bridges(error_get, kind, error)),
{
    match Handle::new(result) {
        Some(handle) => Ok(handle),
        None => Err(try_get_tsk_error(kind, error_get)),
    }
}

} // verus!
