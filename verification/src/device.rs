//! The device-open policy's access-mode derivation.
//!
//! Raw input devices are opened with flags handed down by the device
//! layer; the open policy must derive the read/write capabilities to
//! request from those flags. The constants mirror the platform's open(2)
//! access-mode bits.

use vstd::prelude::*;

verus! {

/// The platform's read-only access mode: the zero bit pattern.
pub const O_RDONLY: i32 = 0;

/// The platform's write-only access mode.
pub const O_WRONLY: i32 = 1;

/// The platform's read-write access mode.
pub const O_RDWR: i32 = 2;

/// The capabilities to request when opening a device.
#[derive(Clone, Copy, PartialEq, Eq, Structural, Debug)]
pub struct OpenAccess {
    pub read: bool,
    pub write: bool,
}

/// Derive the read/write capabilities from open(2) flags. Since the
/// read-only mode is the zero bit pattern, its test never fires and the
/// read capability comes from the read-write bit alone.
pub fn open_access(flags: i32) -> (access: OpenAccess)
    ensures
        access.read == ((flags & O_RDONLY != 0) || (flags & O_RDWR != 0)),
        access.write == ((flags & O_WRONLY != 0) || (flags & O_RDWR != 0)),
        access.read == (flags & O_RDWR != 0),
{
    proof {
        assert(flags & 0i32 == 0i32) by (bit_vector);
    }
    OpenAccess {
        read: (flags & O_RDONLY != 0) || (flags & O_RDWR != 0),
        write: (flags & O_WRONLY != 0) || (flags & O_RDWR != 0),
    }
}

} // verus!
