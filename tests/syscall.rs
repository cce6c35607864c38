use pantheros::exception::{ExceptionClass, ExceptionContext};
use pantheros::syscall::{
    dispatch, validate_user_read, validate_user_write, SyscallAction, SyscallError, USER_END, USER_START,
};

#[test]
fn test_zero_length() {
    assert!(validate_user_read(0x40001000, 0).is_ok());
}

#[test]
fn test_null_pointer() {
    assert!(validate_user_read(0, 100).is_err());
}

#[test]
fn test_overflow() {
    assert!(validate_user_read(usize::MAX - 10, 100).is_err());
}

#[test]
fn buffers_inside_user_memory_pass() {
    let b = validate_user_read(USER_START, USER_END - USER_START).unwrap();
    assert_eq!(b.ptr(), USER_START);
    assert_eq!(b.len(), USER_END - USER_START);
    let w = validate_user_write(USER_START + 16, 32).unwrap();
    assert_eq!(w.ptr(), USER_START + 16);
    assert_eq!(w.len(), 32);
}

#[test]
fn buffers_leaving_user_memory_fail() {
    assert_eq!(validate_user_read(USER_END - 4, 5).unwrap_err(), SyscallError::Efault);
    assert_eq!(validate_user_read(USER_END, 1).unwrap_err(), SyscallError::Efault);
    assert_eq!(validate_user_read(USER_START - 1, 1).unwrap_err(), SyscallError::Efault);
    assert_eq!(validate_user_write(0, 8).unwrap_err(), SyscallError::Efault);
    assert!(validate_user_read(USER_END - 4, 4).is_ok());
}

#[test]
fn error_codes_are_negative_errno_values() {
    assert_eq!(SyscallError::Enosys.code(), -38);
    assert_eq!(SyscallError::Ebadf.code(), -9);
    assert_eq!(SyscallError::Efault.code(), -14);
    assert_eq!(SyscallError::Einval.code(), -22);
}

fn context(num: u64, a0: u64, a1: u64, a2: u64) -> ExceptionContext {
    let mut gpr = [0u64; 31];
    gpr[0] = a0;
    gpr[1] = a1;
    gpr[2] = a2;
    gpr[8] = num;
    ExceptionContext { gpr, elr: 0, spsr: 0, esr: 0x5600_0000, far: 0 }
}

#[test]
fn dispatch_decodes_each_call() {
    let ctx = context(0, 7, 0, 0);
    assert!(matches!(dispatch(0, &ctx), SyscallAction::Exit(7)));

    let ctx = context(1, 1, USER_START as u64, 12);
    match dispatch(1, &ctx) {
        SyscallAction::Write(b) => {
            assert_eq!(b.ptr(), USER_START);
            assert_eq!(b.len(), 12);
        }
        _ => panic!("expected a write"),
    }

    let ctx = context(1, 3, USER_START as u64, 12);
    assert!(matches!(dispatch(1, &ctx), SyscallAction::Fail(SyscallError::Ebadf)));

    let ctx = context(1, 2, 0, 12);
    assert!(matches!(dispatch(1, &ctx), SyscallAction::Fail(SyscallError::Efault)));

    let ctx = context(9, 0, 0, 0);
    assert!(matches!(dispatch(9, &ctx), SyscallAction::Fail(SyscallError::Enosys)));
}

#[test]
fn exception_class_comes_from_syndrome_bits() {
    assert_eq!(ExceptionClass::from(0x5600_0000u64), ExceptionClass::SvcAarch64);
    assert_eq!(ExceptionClass::from(0x9200_0000u64), ExceptionClass::DataAbortLowerEl);
    assert_eq!(ExceptionClass::from(0x8200_0000u64), ExceptionClass::InstructionAbortLowerEl);
    assert_eq!(ExceptionClass::from(0x8600_0000u64), ExceptionClass::InstructionAbortSameEl);
    assert_eq!(ExceptionClass::from(0x9600_0000u64), ExceptionClass::DataAbortSameEl);
    assert_eq!(ExceptionClass::from(0x0000_0000u64), ExceptionClass::Unknown);
    assert_eq!(ExceptionClass::from(0x0400_0000u64), ExceptionClass::Other);
}
