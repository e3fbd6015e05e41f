use vstd::prelude::*;

use crate::error::Error;
use crate::fd::{Fd, FdState};

verus! {

/// The arguments of a mapping request: `len` bytes of descriptor `fd`,
/// starting at byte `offset`. The mapping asked for is always shared,
/// readable and writable, and populated eagerly.
#[derive(Debug, Clone, Copy, PartialEq, Eq, Structural)]
pub struct MapRequest {
    pub fd: i32,
    pub offset: i64,
    pub len: usize,
}

/// What the operating system answered to a mapping request: the base address
/// of the new mapping, or the error code of the failure.
#[derive(Debug, Clone, Copy, PartialEq, Eq, Structural)]
pub enum MapOutcome {
    Mapped(usize),
    Failed(i32),
}

/// The model of a mapped region: its base address, its length in bytes, and
/// whether it is still the one responsible for unmapping that range.
#[derive(Debug, Clone, Copy, PartialEq, Eq, Structural)]
pub struct RegionState {
    pub addr: usize,
    pub len: usize,
    pub mapped: bool,
}

/// The request for `len` bytes at byte `offset` of the descriptor that a
/// handle in state `fd` holds.
pub open spec fn requested(fd: FdState, offset: i64, len: usize) -> MapRequest {
    MapRequest { fd: fd.raw, offset, len }
}

/// Whether a range of `len` bytes at `addr` lies in the address space, its
/// end address included.
pub open spec fn fits(addr: usize, len: usize) -> bool {
    addr + len <= usize::MAX
}

/// The region that a mapping of `len` bytes yields for `outcome`, or the
/// mapping failure.
pub open spec fn mapping_result(len: usize, outcome: MapOutcome) -> Result<RegionState, Error> {
    match outcome {
        MapOutcome::Mapped(addr) => Ok(RegionState { addr, len, mapped: true }),
        MapOutcome::Failed(errno) => Err(Error::OsMappingFailure(errno)),
    }
}

/// The range that dropping a region in state `s` unmaps, if any.
pub open spec fn unmap_on_drop(s: RegionState) -> Option<(usize, usize)> {
    if s.mapped {
        Some((s.addr, s.len))
    } else {
        None
    }
}

/// The state of a region after its range was handed out for unmapping.
pub open spec fn unmapped(s: RegionState) -> RegionState {
    RegionState { addr: s.addr, len: s.len, mapped: false }
}

/// The model of a fallible construction.
pub open spec fn region_of(r: Result<Mmap, Error>) -> Result<RegionState, Error> {
    match r {
        Ok(m) => Ok(m@),
        Err(e) => Err(e),
    }
}

/// An owning handle for a memory-mapped range of `len` bytes at `addr`.
///
/// The handle is move-only. Whoever finally drops it asks `take_mapping` for
/// the range to unmap, which is handed out once.
#[derive(Debug)]
pub struct Mmap {
    addr: usize,
    len: usize,
    mapped: bool,
}

impl View for Mmap {
    type V = RegionState;

    closed spec fn view(&self) -> RegionState {
        RegionState { addr: self.addr, len: self.len, mapped: self.mapped }
    }
}

impl Mmap {
    #[verifier::type_invariant]
    spec fn in_address_space(self) -> bool {
        fits(self.addr, self.len)
    }

    /// The request for a mapping of `len` bytes of `fd` at byte `offset`.
    pub fn request(fd: &Fd, offset: i64, len: usize) -> (r: MapRequest)
        ensures
            r == requested(fd@, offset, len),
    {
        MapRequest { fd: fd.peek(), offset, len }
    }

    /// The region that the operating system's answer to `req` yields: the
    /// mapping at the returned address, or `OsMappingFailure` with its code.
    pub fn new(req: &MapRequest, outcome: MapOutcome) -> (r: Result<Mmap, Error>)
        requires
            outcome matches MapOutcome::Mapped(addr) ==> fits(addr, req.len),
        ensures
            region_of(r) == mapping_result(req.len, outcome),
    {
        match outcome {
            MapOutcome::Mapped(addr) => Ok(Mmap { addr, len: req.len, mapped: true }),
            MapOutcome::Failed(errno) => Err(Error::OsMappingFailure(errno)),
        }
    }

    /// The base address of the mapping; ownership stays with the handle.
    pub fn as_mut_ptr(&self) -> (r: usize)
        ensures
            r == self@.addr,
    {
        self.addr
    }

    /// The length of the mapping in bytes.
    pub fn len(&self) -> (r: usize)
        ensures
            r == self@.len,
    {
        self.len
    }

    /// Whether this handle is still responsible for unmapping its range.
    pub fn is_mapped(&self) -> (r: bool)
        ensures
            r == self@.mapped,
    {
        self.mapped
    }

    /// The address `offset` bytes past the base of the mapping. The offset is
    /// not checked against the layout stored there: overlaying a structure at
    /// it is the caller's business.
    pub fn pointer_at(&self, offset: usize) -> (r: usize)
        requires
            offset <= self@.len,
        ensures
            r == self@.addr + offset,
    {
        proof {
            use_type_invariant(self);
        }
        self.addr + offset
    }

    /// Disarms the handle and returns the range that must now be unmapped, if
    /// the handle still held it. A second call returns `None`.
    pub fn take_mapping(&mut self) -> (r: Option<(usize, usize)>)
        ensures
            r == unmap_on_drop(old(self)@),
            final(self)@ == unmapped(old(self)@),
    {
        proof {
            use_type_invariant(&*self);
        }
        if self.mapped {
            self.mapped = false;
            Some((self.addr, self.len))
        } else {
            None
        }
    }
}

/// A mapping of `len` bytes at offset `0` that the operating system grants
/// yields a region of exactly `len` bytes at the granted address, still to be
/// unmapped.
pub proof fn lemma_granted_mapping_length(fd: FdState, len: usize, addr: usize)
    ensures
        mapping_result(requested(fd, 0, len).len, MapOutcome::Mapped(addr))
            == Ok::<RegionState, Error>(RegionState { addr, len, mapped: true }),
{
}

/// A refused mapping yields `OsMappingFailure` with the operating system's
/// code and no region, so nothing is left to unmap.
pub proof fn lemma_refused_mapping(len: usize, errno: i32)
    ensures
        mapping_result(len, MapOutcome::Failed(errno))
            == Err::<RegionState, Error>(Error::OsMappingFailure(errno)),
{
}

/// The range of a granted mapping is handed out for unmapping once: the
/// first request yields exactly the mapped range, any later one nothing.
pub proof fn lemma_unmapped_once(len: usize, addr: usize)
    ensures
        ({
            let s = RegionState { addr, len, mapped: true };
            &&& unmap_on_drop(s) == Some((addr, len))
            &&& unmap_on_drop(unmapped(s)) is None
            &&& unmap_on_drop(unmapped(unmapped(s))) is None
        }),
{
}

} // verus!
