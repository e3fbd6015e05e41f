use vstd::prelude::*;

use crate::error::Error;

verus! {

/// The model of a descriptor handle: the raw value it holds and whether it is
/// still the one responsible for closing it.
#[derive(Debug, Clone, Copy, PartialEq, Eq, Structural)]
pub struct FdState {
    pub raw: i32,
    pub owns: bool,
}

/// A handle that has just taken ownership of `raw`.
pub open spec fn adopted(raw: i32) -> FdState {
    FdState { raw, owns: true }
}

/// Validating `raw`: a handle owning it when it is non-negative, else
/// `InvalidDescriptor`.
pub open spec fn validated(raw: i32) -> Result<FdState, Error> {
    if raw >= 0 {
        Ok(adopted(raw))
    } else {
        Err(Error::InvalidDescriptor)
    }
}

/// Handing ownership out of `s`: the disarmed state left behind and the raw
/// value handed out.
pub open spec fn released(s: FdState) -> (FdState, i32) {
    (FdState { raw: s.raw, owns: false }, s.raw)
}

/// The descriptor that dropping a handle in state `s` closes, if any.
pub open spec fn close_on_drop(s: FdState) -> Option<i32> {
    if s.owns {
        Some(s.raw)
    } else {
        None
    }
}

/// The model of a fallible construction.
pub open spec fn state_of(r: Result<Fd, Error>) -> Result<FdState, Error> {
    match r {
        Ok(fd) => Ok(fd@),
        Err(e) => Err(e),
    }
}

/// An owning handle for a raw operating-system descriptor.
///
/// The handle is move-only. It records whether it still owns its descriptor;
/// the one who finally drops it asks `take_owned` what to close, so that a
/// descriptor is closed at most once and never after its ownership was
/// handed out.
#[derive(Debug)]
pub struct Fd {
    raw: i32,
    owns: bool,
}

impl View for Fd {
    type V = FdState;

    closed spec fn view(&self) -> FdState {
        FdState { raw: self.raw, owns: self.owns }
    }
}

impl Fd {
    #[verifier::type_invariant]
    spec fn non_negative(self) -> bool {
        self.raw >= 0
    }

    /// Takes ownership of `value` if it is a valid (non-negative) descriptor.
    pub fn validate(value: i32) -> (r: Result<Fd, Error>)
        ensures
            state_of(r) == validated(value),
    {
        if value >= 0 {
            Ok(Fd { raw: value, owns: true })
        } else {
            Err(Error::InvalidDescriptor)
        }
    }

    /// Takes ownership of `fd` without further checks; meant for a value that
    /// an operating-system call has just returned.
    pub fn adopt(fd: i32) -> (r: Fd)
        requires
            fd >= 0,
        ensures
            r@ == adopted(fd),
    {
        Fd { raw: fd, owns: true }
    }

    /// The raw descriptor; ownership stays with the handle.
    pub fn peek(&self) -> (r: i32)
        ensures
            r == self@.raw,
            r >= 0,
    {
        proof {
            use_type_invariant(self);
        }
        self.raw
    }

    /// Whether this handle is still responsible for closing its descriptor.
    pub fn is_owning(&self) -> (r: bool)
        ensures
            r == self@.owns,
    {
        self.owns
    }

    /// Hands ownership of the descriptor to the caller: the raw value is
    /// returned and this handle will close nothing.
    pub fn release_ownership(&mut self) -> (r: i32)
        requires
            old(self)@.owns,
        ensures
            (final(self)@, r) == released(old(self)@),
    {
        proof {
            use_type_invariant(&*self);
        }
        self.owns = false;
        self.raw
    }

    /// Disarms the handle and returns the descriptor that must now be closed,
    /// if the handle still owned one. A second call returns `None`.
    pub fn take_owned(&mut self) -> (r: Option<i32>)
        ensures
            r == close_on_drop(old(self)@),
            final(self)@ == released(old(self)@).0,
    {
        proof {
            use_type_invariant(&*self);
        }
        if self.owns {
            self.owns = false;
            Some(self.raw)
        } else {
            None
        }
    }
}

/// Validating `n` succeeds exactly when `n` is non-negative, and the handle it
/// yields holds `n`, the value a peek returns; a negative `n` is refused with
/// `InvalidDescriptor`.
pub proof fn lemma_validate_then_peek(n: i32)
    ensures
        validated(n) is Ok <==> n >= 0,
        validated(n) matches Ok(s) ==> s.raw == n && s.owns,
        n < 0 ==> validated(n) == Err::<FdState, Error>(Error::InvalidDescriptor),
{
}

/// Handing ownership out of an owning handle and adopting the handed-out value
/// into a new handle leaves exactly one closer: dropping the original closes
/// nothing, dropping the new one closes the descriptor once.
pub proof fn lemma_transfer_closes_once(s: FdState)
    requires
        s.owns,
    ensures
        close_on_drop(released(s).0) is None,
        close_on_drop(adopted(released(s).1)) == Some(s.raw),
{
}

} // verus!
