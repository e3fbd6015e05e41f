use vstd::prelude::*;

verus! {

/// Errors of descriptor validation, of mapping, and of an explicit release.
#[derive(Debug, Clone, Copy, PartialEq, Eq, Structural)]
pub enum Error {
    /// A raw descriptor value was negative.
    InvalidDescriptor,
    /// The mapping request failed; carries the operating system's error code.
    OsMappingFailure(i32),
    /// Closing a descriptor or unmapping a region failed; carries the error code.
    ReleaseFailure(i32),
}

/// What a release call (close or unmap) reporting `ret` and `errno` means.
pub open spec fn release_outcome(ret: i32, errno: i32) -> Result<(), Error> {
    if ret == 0 {
        Ok(())
    } else {
        Err(Error::ReleaseFailure(errno))
    }
}

/// Interprets the status of a close or unmap call: `0` is success, anything
/// else a failure whose cause is `errno`.
pub fn release_status(ret: i32, errno: i32) -> (r: Result<(), Error>)
    ensures
        r == release_outcome(ret, errno),
{
    if ret == 0 {
        Ok(())
    } else {
        Err(Error::ReleaseFailure(errno))
    }
}

} // verus!
