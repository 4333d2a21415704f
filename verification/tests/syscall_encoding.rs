use pebble::syscall::result::{
    result_from_syscall_repr, result_to_syscall_repr, status_from_syscall_repr,
    status_to_syscall_repr, ErrorStatus,
};
use pebble::syscall::{KernelObjectId, RequestSystemObjectError};

const ERRORS: [RequestSystemObjectError; 3] = [
    RequestSystemObjectError::ObjectDoesNotExist,
    RequestSystemObjectError::NotAValidId,
    RequestSystemObjectError::PermissionDenied,
];

#[test]
fn error_status_numbers_follow_the_documentation() {
    assert_eq!(RequestSystemObjectError::ObjectDoesNotExist.into_status(), 1);
    assert_eq!(RequestSystemObjectError::NotAValidId.into_status(), 2);
    assert_eq!(RequestSystemObjectError::PermissionDenied.into_status(), 3);
    assert_eq!(RequestSystemObjectError::try_from_status(0), None);
    assert_eq!(RequestSystemObjectError::try_from_status(4), None);
    assert_eq!(
        RequestSystemObjectError::try_from_status(2),
        Some(RequestSystemObjectError::NotAValidId)
    );
}

#[test]
fn status_success_is_zero() {
    assert_eq!(status_to_syscall_repr::<RequestSystemObjectError>(Ok(())), 0);
    assert_eq!(status_from_syscall_repr::<RequestSystemObjectError>(0), Ok(()));
}

#[test]
fn status_error_is_its_number() {
    assert_eq!(
        status_to_syscall_repr(Err::<(), _>(RequestSystemObjectError::PermissionDenied)),
        3
    );
    assert_eq!(
        status_from_syscall_repr::<RequestSystemObjectError>(1),
        Err(RequestSystemObjectError::ObjectDoesNotExist)
    );
}

#[test]
fn status_round_trip() {
    for error in ERRORS {
        let repr = status_to_syscall_repr(Err::<(), _>(error));
        assert_eq!(status_from_syscall_repr::<RequestSystemObjectError>(repr), Err(error));
    }
    let repr = status_to_syscall_repr::<RequestSystemObjectError>(Ok(()));
    assert_eq!(status_from_syscall_repr::<RequestSystemObjectError>(repr), Ok(()));
}

#[test]
fn result_success_carries_the_id() {
    assert_eq!(result_to_syscall_repr::<RequestSystemObjectError>(Ok(KernelObjectId(7))), 7);
    assert_eq!(
        result_from_syscall_repr::<RequestSystemObjectError>(7),
        Ok(KernelObjectId(7))
    );
    assert_eq!(
        result_to_syscall_repr::<RequestSystemObjectError>(Ok(KernelObjectId(u32::MAX))),
        0xffff_ffff
    );
}

#[test]
fn result_error_sits_in_the_high_bits() {
    assert_eq!(
        result_to_syscall_repr(Err::<KernelObjectId, _>(RequestSystemObjectError::PermissionDenied)),
        3 << 32
    );
    assert_eq!(
        result_from_syscall_repr::<RequestSystemObjectError>(2 << 32),
        Err(RequestSystemObjectError::NotAValidId)
    );
    assert_eq!(
        result_from_syscall_repr::<RequestSystemObjectError>((1 << 32) | 0x55),
        Err(RequestSystemObjectError::ObjectDoesNotExist)
    );
}

#[test]
fn result_round_trip() {
    for error in ERRORS {
        let repr = result_to_syscall_repr(Err::<KernelObjectId, _>(error));
        assert_eq!(result_from_syscall_repr::<RequestSystemObjectError>(repr), Err(error));
    }
    for id in [0u32, 1, 0x1234_5678, u32::MAX] {
        let repr = result_to_syscall_repr::<RequestSystemObjectError>(Ok(KernelObjectId(id)));
        assert_eq!(
            result_from_syscall_repr::<RequestSystemObjectError>(repr),
            Ok(KernelObjectId(id))
        );
    }
}

#[test]
fn syscall_id_is_the_low_half() {
    assert_eq!(KernelObjectId::from_syscall_repr(0x1234_0000_0042), KernelObjectId(0x42));
    assert_eq!(KernelObjectId(0x42).to_syscall_repr(), 0x42);
}
