use vstd::prelude::*;

verus! {

/// An opaque reference to a value held by the confidential-compute service.
///
/// The number inside is a name in that service's namespace and nothing else:
/// this library stores handles, routes them and hands them back, and never
/// computes with them. `wrap` and `unwrap` exist for the boundary with the
/// service alone.
#[derive(Clone, Copy, Debug, PartialEq, Eq, Structural)]
pub struct EncryptedHandle {
    raw: u128,
}

impl EncryptedHandle {
    /// The reference as the service knows it.
    pub closed spec fn raw(&self) -> u128 {
        self.raw
    }

    /// The handle that refers to nothing, with which every slot starts.
    pub open spec fn empty_spec() -> EncryptedHandle {
        EncryptedHandle::wrap_spec(0)
    }

    pub closed spec fn wrap_spec(value: u128) -> EncryptedHandle {
        EncryptedHandle { raw: value }
    }

    /// `raw` and `wrap_spec` are inverse to each other.
    pub broadcast proof fn lemma_wrap_raw(value: u128)
        ensures
            #[trigger] EncryptedHandle::wrap_spec(value).raw() == value,
    {
    }

    /// Two handles with the same reference are the same handle.
    pub broadcast proof fn lemma_raw_injective(a: EncryptedHandle, b: EncryptedHandle)
        requires
            #[trigger] a.raw() == #[trigger] b.raw(),
        ensures
            a == b,
    {
    }

    /// Takes a reference that the service returned.
    pub fn wrap(value: u128) -> (h: EncryptedHandle)
        ensures
            h == EncryptedHandle::wrap_spec(value),
            h.raw() == value,
    {
        EncryptedHandle { raw: value }
    }

    /// Gives the reference back, to be sent to the service.
    pub fn unwrap(self) -> (value: u128)
        ensures
            value == self.raw(),
    {
        self.raw
    }

    /// The handle that refers to nothing.
    pub fn empty() -> (h: EncryptedHandle)
        ensures
            h == EncryptedHandle::empty_spec(),
            h.raw() == 0,
    {
        EncryptedHandle { raw: 0 }
    }

    /// Whether the handle refers to a value of the service: every reference
    /// but zero does.
    pub fn is_initialized(&self) -> (r: bool)
        ensures
            r == (self.raw() != 0),
    {
        self.raw != 0
    }
}

} // verus!
