use vstd::prelude::*;

verus! {

/// The sole owner of one native handle, which is never null.
///
/// The guard is neither `Copy` nor `Clone`: one guard stands for one live
/// handle, and giving the guard up is what lets the handle be released.
#[derive(Debug)]
pub struct ResourceGuard {
    raw: u64,
}

impl ResourceGuard {
    /// The native handle that this guard owns.
    pub closed spec fn handle(&self) -> u64 {
        self.raw
    }

    #[verifier::type_invariant]
    spec fn non_null(&self) -> bool {
        self.raw != 0
    }

    /// Takes ownership of a native handle; a null handle gives no guard.
    pub fn new(raw: u64) -> (r: Option<ResourceGuard>)
        ensures
            r is None <==> raw == 0,
            r matches Some(g) ==> g.handle() == raw,
    {
        if raw == 0 {
            None
        } else {
            Some(ResourceGuard { raw })
        }
    }

    /// The handle, to pass into native calls.
    pub fn raw(&self) -> (r: u64)
        ensures
            r == self.handle(),
            r != 0,
    {
        proof {
            use_type_invariant(self);
        }
        self.raw
    }

    /// Gives the guard up and hands back its handle, for the one release
    /// that the native library is owed.
    pub fn into_raw(self) -> (r: u64)
        ensures
            r == self.handle(),
            r != 0,
    {
        proof {
            use_type_invariant(&self);
        }
        self.raw
    }
}

} // verus!
