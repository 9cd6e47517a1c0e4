//! The identity of a foreign object.

use vstd::prelude::*;

verus! {

/// The identity of an object that the foreign library owns: its address,
/// never null. A handle is only compared and passed back, never followed.
#[derive(Clone, Copy, Debug, PartialEq, Eq, Hash, Structural)]
pub struct Handle {
    addr: usize,
}

impl View for Handle {
    type V = nat;

    /// The address that identifies the object.
    closed spec fn view(&self) -> nat {
        self.addr as nat
    }
}

impl Handle {
    #[verifier::type_invariant]
    spec fn non_null(self) -> bool {
        self.addr != 0
    }

    /// The handle for `addr`, or `None` for the null address.
    pub fn from_addr(addr: usize) -> (handle: Option<Handle>)
        ensures
            handle is None <==> addr == 0,
            handle matches Some(h) ==> h@ == addr,
    {
        if addr == 0 {
            None
        } else {
            Some(Handle { addr })
        }
    }

    /// The address, unchanged since `from_addr` took it.
    pub fn addr(&self) -> (addr: usize)
        ensures
            addr == self@,
            addr != 0,
    {
        proof {
            use_type_invariant(self);
        }
        self.addr
    }
}

/// Two handles are the same handle exactly when their addresses agree.
pub proof fn lemma_handle_is_its_address(a: Handle, b: Handle)
    ensures
        a == b <==> a@ == b@,
{
}

} // verus!
