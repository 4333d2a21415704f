//! How a system call's outcome travels in a register. A status is `0` for success and the
//! error's status number otherwise. A result that carries a kernel object identifier puts
//! the status in bits 32..64 and, on success, the identifier in the low bits.

use crate::bits::{bit_range, usize_get_bits, usize_set_bits};
use crate::syscall::KernelObjectId;
use vstd::prelude::*;

verus! {

/// An error type that system calls report by a nonzero status number.
pub trait ErrorStatus: Sized {
    /// The status number that stands for this error.
    spec fn status(self) -> usize;

    /// The error that a status number stands for, if any.
    spec fn from_status(status: usize) -> Option<Self>;

    /// Every error has a nonzero status that stands for it alone.
    proof fn lemma_status_round_trip(self)
        ensures
            0 < self.status(),
            Self::from_status(self.status()) == Some(self),
    ;

    /// A status number decodes only to an error that it stands for.
    proof fn lemma_from_status_inverse(status: usize)
        ensures
            Self::from_status(status) is Some ==> Self::from_status(status).unwrap().status()
                == status,
    ;

    /// Decodes a status number.
    fn try_from_status(status: usize) -> (error: Option<Self>)
        ensures
            error == Self::from_status(status),
    ;

    /// Encodes the error as its status number.
    fn into_status(self) -> (status: usize)
        ensures
            status == self.status(),
    ;
}

/// The register value that stands for a status.
pub open spec fn status_repr<E: ErrorStatus>(result: Result<(), E>) -> usize {
    match result {
        Ok(()) => 0,
        Err(error) => error.status(),
    }
}

/// Whether a status register holds `0` or a status number that `E` can decode.
pub open spec fn status_decodes<E: ErrorStatus>(status: usize) -> bool {
    status == 0 || E::from_status(status) is Some
}

/// The status that a register value stands for.
pub open spec fn status_from_repr<E: ErrorStatus>(status: usize) -> Result<(), E> {
    if status == 0 {
        Ok(())
    } else {
        Err(E::from_status(status).unwrap())
    }
}

/// The status bits (32..64) of a result register.
pub open spec fn result_status(repr: usize) -> nat {
    (repr as nat / 0x1_0000_0000) % 0x1_0000_0000
}

/// The register value that stands for a result carrying a kernel object identifier.
pub open spec fn result_repr<E: ErrorStatus>(result: Result<KernelObjectId, E>) -> int {
    match result {
        Ok(id) => id.0 as int,
        Err(error) => error.status() * 0x1_0000_0000,
    }
}

/// Whether a result can be encoded: an error's status must fit in the 32 status bits.
pub open spec fn result_encodable<E: ErrorStatus>(result: Result<KernelObjectId, E>) -> bool {
    result matches Err(error) ==> error.status() < 0x1_0000_0000
}

/// Whether a result register holds status `0` or a status number that `E` can decode.
pub open spec fn result_decodes<E: ErrorStatus>(repr: usize) -> bool {
    result_status(repr) == 0 || E::from_status(result_status(repr) as usize) is Some
}

/// The result that a register value stands for.
pub open spec fn result_from_repr<E: ErrorStatus>(repr: usize) -> Result<KernelObjectId, E> {
    if result_status(repr) == 0 {
        Ok(KernelObjectId::from_repr(repr))
    } else {
        Err(E::from_status(result_status(repr) as usize).unwrap())
    }
}

/// Decodes a status register. A value that is neither `0` nor a status number of `E` is a
/// broken kernel, on which this panics: the `requires` keeps it out.
pub fn status_from_syscall_repr<E: ErrorStatus>(status: usize) -> (result: Result<(), E>)
    requires
        status_decodes::<E>(status),
    ensures
        result == status_from_repr::<E>(status),
{
    if status == 0 {
        Ok(())
    } else {
        match E::try_from_status(status) {
            Some(error) => Err(error),
            None => {
                proof {
                    assert(false);
                }
                Ok(())
            },
        }
    }
}

/// Encodes a status: `0` for success, the error's status number otherwise.
pub fn status_to_syscall_repr<E: ErrorStatus>(result: Result<(), E>) -> (status: usize)
    ensures
        status == status_repr(result),
{
    match result {
        Ok(()) => 0,
        Err(error) => error.into_status(),
    }
}

/// Decodes a result register: status `0` in bits 32..64 gives the identifier in the low
/// bits, any other status the error it stands for. A status that `E` cannot decode is a
/// broken kernel, on which this panics, as it does where `usize` is narrower than 64 bits:
/// the `requires` keeps both out.
pub fn result_from_syscall_repr<E: ErrorStatus>(result: usize) -> (decoded: Result<
    KernelObjectId,
    E,
>)
    requires
        usize::BITS == 64,
        result_decodes::<E>(result),
    ensures
        decoded == result_from_repr::<E>(result),
        (result as nat) < 0x1_0000_0000 ==> decoded == Ok::<KernelObjectId, E>(
            KernelObjectId(result as u32),
        ),
        (result as nat) / 0x1_0000_0000 == 0 <==> decoded is Ok,
{
    let status = usize_get_bits(result, 32, 64);
    proof {
        let r = result as nat;
        assert(r < 0x1_0000_0000_0000_0000);
        assert(r / 0x1_0000_0000 < 0x1_0000_0000);
        assert(result_status(result) == r / 0x1_0000_0000);
        if r < 0x1_0000_0000 {
            assert(r % 0x1_0000_0000 == r);
        }
        vstd::arithmetic::power2::lemma2_to64();
        assert(status == result_status(result));
    }
    if status == 0 {
        Ok(KernelObjectId::from_syscall_repr(result))
    } else {
        match E::try_from_status(status) {
            Some(error) => Err(error),
            None => {
                proof {
                    assert(false);
                }
                Ok(KernelObjectId(0))
            },
        }
    }
}

/// Encodes a result: the identifier itself on success, the error's status number in bits
/// 32..64 on failure. Where `usize` is narrower than 64 bits, or the status does not fit in
/// 32 bits, this panics: the `requires` keeps both out.
pub fn result_to_syscall_repr<E: ErrorStatus>(result: Result<KernelObjectId, E>) -> (repr: usize)
    requires
        usize::BITS == 64,
        result_encodable(result),
    ensures
        repr == result_repr(result),
        result matches Ok(id) ==> repr == id.0,
        result matches Err(error) ==> repr == error.status() * 0x1_0000_0000,
{
    match result {
        Ok(id) => KernelObjectId::to_syscall_repr(id),
        Err(error) => {
            proof {
                error.lemma_status_round_trip();
                vstd::arithmetic::power2::lemma2_to64();
            }
            let mut value = 0usize;
            let status = error.into_status();
            usize_set_bits(&mut value, 32, 64, status);
            proof {
                let v = value as nat;
                assert(v % 0x1_0000_0000 == 0);
                assert(v / 0x1_0000_0000 < 0x1_0000_0000) by {
                    assert(v < 0x1_0000_0000_0000_0000);
                }
                assert(v == (v / 0x1_0000_0000) * 0x1_0000_0000);
            }
            value
        },
    }
}

/// A status read back from the register it was encoded into is the status that was
/// encoded; success alone is encoded as `0`.
pub proof fn lemma_status_encoding_round_trip<E: ErrorStatus>(result: Result<(), E>)
    ensures
        status_decodes::<E>(status_repr(result)),
        status_from_repr::<E>(status_repr(result)) == result,
        status_repr(result) == 0 <==> result is Ok,
{
    match result {
        Ok(u) => {
            assert(status_from_repr::<E>(0) == Ok::<(), E>(()));
        },
        Err(error) => {
            error.lemma_status_round_trip();
            assert(status_from_repr::<E>(error.status()) == Err::<(), E>(error));
        },
    }
}

/// Every status register that decodes is the encoding of what it decodes to.
pub proof fn lemma_status_decoding_round_trip<E: ErrorStatus>(status: usize)
    requires
        status_decodes::<E>(status),
    ensures
        status_repr(status_from_repr::<E>(status)) == status,
{
    E::lemma_from_status_inverse(status);
}

/// A result read back from the register it was encoded into is the result that was
/// encoded: an identifier comes back unchanged, an error comes back as itself, and the
/// status bits are `0` exactly for success.
pub proof fn lemma_result_encoding_round_trip<E: ErrorStatus>(result: Result<KernelObjectId, E>)
    requires
        usize::BITS == 64,
        result_encodable(result),
    ensures
        0 <= result_repr(result) <= usize::MAX,
        result_decodes::<E>(result_repr(result) as usize),
        result_from_repr::<E>(result_repr(result) as usize) == result,
        result_status(result_repr(result) as usize) == 0 <==> result is Ok,
{
    match result {
        Ok(id) => {},
        Err(error) => {
            error.lemma_status_round_trip();
            let s = error.status() as int;
            assert(0 < s * 0x1_0000_0000 < 0x1_0000_0000_0000_0000) by (nonlinear_arith)
                requires
                    0 < s < 0x1_0000_0000,
            ;
            assert((s * 0x1_0000_0000) / 0x1_0000_0000 == s);
        },
    }
}

/// Every result register that decodes, and whose low bits are clear where it reports an
/// error, is the encoding of what it decodes to.
pub proof fn lemma_result_decoding_round_trip<E: ErrorStatus>(repr: usize)
    requires
        usize::BITS == 64,
        result_decodes::<E>(repr),
        result_status(repr) != 0 ==> repr as nat % 0x1_0000_0000 == 0,
    ensures
        result_repr(result_from_repr::<E>(repr)) == repr,
{
    let r = repr as int;
    assert(r < 0x1_0000_0000_0000_0000);
    assert(result_status(repr) == r / 0x1_0000_0000);
    if result_status(repr) == 0 {
        assert(r < 0x1_0000_0000);
    } else {
        E::lemma_from_status_inverse(result_status(repr) as usize);
        assert(r == (r / 0x1_0000_0000) * 0x1_0000_0000 + r % 0x1_0000_0000);
    }
}

/// A successful result is encoded as the identifier itself, with the status bits clear.
pub proof fn lemma_success_is_the_identifier<E: ErrorStatus>(id: KernelObjectId)
    ensures
        result_repr::<E>(Ok(id)) == id.0,
        result_repr::<E>(Ok(id)) < 0x1_0000_0000,
{
}

/// A register whose status bits are clear decodes to the identifier in its low 32 bits, and
/// one below `2^32` to the register's value itself.
pub proof fn lemma_clear_status_is_an_identifier<E: ErrorStatus>(repr: usize)
    requires
        result_status(repr) == 0,
    ensures
        result_from_repr::<E>(repr) == Ok::<KernelObjectId, E>(
            KernelObjectId((repr as nat % 0x1_0000_0000) as u32),
        ),
        (repr as nat) < 0x1_0000_0000 ==> result_from_repr::<E>(repr) == Ok::<KernelObjectId, E>(
            KernelObjectId(repr as u32),
        ),
{
}

/// An error result is encoded as its status number times `2^32`, and a register with a
/// nonzero status decodes to the error of that status.
pub proof fn lemma_error_sits_in_the_status_bits<E: ErrorStatus>(error: E, repr: usize)
    requires
        result_status(repr) != 0,
        E::from_status(result_status(repr) as usize) is Some,
    ensures
        result_repr::<E>(Err(error)) == error.status() * 0x1_0000_0000,
        result_from_repr::<E>(repr) == Err::<KernelObjectId, E>(
            E::from_status(((repr as nat / 0x1_0000_0000) % 0x1_0000_0000) as usize).unwrap(),
        ),
{
}

} // verus!
