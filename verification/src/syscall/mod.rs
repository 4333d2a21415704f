//! The user-space side of the system-call interface: the identifiers that system calls
//! hand back, the errors they report, and how both are packed into one register.

pub mod result;

use crate::bits::{bit_range, usize_get_bits};
use crate::syscall::result::ErrorStatus;
use vstd::prelude::*;

verus! {

/// The identifier of a kernel object as user space sees it: it travels in the low 32 bits
/// of a system call's result register.
#[derive(Clone, Copy, Debug, PartialEq, Eq, Structural)]
pub struct KernelObjectId(pub u32);

impl KernelObjectId {
    /// The identifier held in the low 32 bits of a result register.
    pub open spec fn from_repr(repr: usize) -> KernelObjectId {
        KernelObjectId((repr as nat % 0x1_0000_0000) as u32)
    }

    /// Reads the identifier out of the low 32 bits of a result register.
    pub fn from_syscall_repr(repr: usize) -> (id: KernelObjectId)
        ensures
            id == KernelObjectId::from_repr(repr),
    {
        let low = usize_get_bits(repr, 0, 32);
        proof {
            vstd::arithmetic::power2::lemma2_to64();
            assert(bit_range(repr as nat, 0, 32) == repr as nat % 0x1_0000_0000);
        }
        KernelObjectId(low as u32)
    }

    /// The register value that carries the identifier: the identifier itself.
    pub fn to_syscall_repr(self) -> (repr: usize)
        ensures
            repr == self.0,
    {
        self.0 as usize
    }
}

/// The errors of `request_system_object`, with the status numbers that stand for them.
#[derive(Clone, Copy, Debug, PartialEq, Eq, Structural)]
pub enum RequestSystemObjectError {
    /// Status 1: the requested identifier is valid, but the system object has not been created.
    ObjectDoesNotExist,
    /// Status 2: the identifier does not correspond to a valid system object.
    NotAValidId,
    /// Status 3: the task does not have the capability needed to access the object (also
    /// reported when the object does not exist).
    PermissionDenied,
}

impl ErrorStatus for RequestSystemObjectError {
    open spec fn status(self) -> usize {
        match self {
            RequestSystemObjectError::ObjectDoesNotExist => 1,
            RequestSystemObjectError::NotAValidId => 2,
            RequestSystemObjectError::PermissionDenied => 3,
        }
    }

    open spec fn from_status(status: usize) -> Option<Self> {
        if status == 1 {
            Some(RequestSystemObjectError::ObjectDoesNotExist)
        } else if status == 2 {
            Some(RequestSystemObjectError::NotAValidId)
        } else if status == 3 {
            Some(RequestSystemObjectError::PermissionDenied)
        } else {
            None
        }
    }

    proof fn lemma_status_round_trip(self) {
    }

    proof fn lemma_from_status_inverse(status: usize) {
    }

    fn try_from_status(status: usize) -> (error: Option<Self>) {
        match status {
            1 => Some(RequestSystemObjectError::ObjectDoesNotExist),
            2 => Some(RequestSystemObjectError::NotAValidId),
            3 => Some(RequestSystemObjectError::PermissionDenied),
            _ => None,
        }
    }

    fn into_status(self) -> (status: usize) {
        match self {
            RequestSystemObjectError::ObjectDoesNotExist => 1,
            RequestSystemObjectError::NotAValidId => 2,
            RequestSystemObjectError::PermissionDenied => 3,
        }
    }
}

} // verus!
