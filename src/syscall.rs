//! System-call decoding and checking of user buffers.
//!
//! Only two calls exist: `exit(status)` and `write(fd, buf, len)`. Every
//! argument is checked before it is used; a bad one yields an error code,
//! never a panic.
use crate::exception::ExceptionContext;
use vstd::prelude::*;

verus! {

/// Number of the exit call.
pub const SYS_EXIT: usize = 0;

/// Number of the write call.
pub const SYS_WRITE: usize = 1;

/// First address of user memory.
pub const USER_START: usize = 0x4000_0000;

/// End of user memory, just past its last byte.
pub const USER_END: usize = 0x4008_0000;

/// Errors that a system call reports to user code.
#[derive(Clone, Copy, PartialEq, Eq, Debug, Structural)]
pub enum SyscallError {
    /// No such system call.
    Enosys,
    /// Bad file descriptor.
    Ebadf,
    /// Bad address.
    Efault,
    /// Invalid argument.
    Einval,
}

/// The negative code of each error, as user code receives it.
pub open spec fn error_code(e: SyscallError) -> int {
    match e {
        SyscallError::Enosys => -38,
        SyscallError::Ebadf => -9,
        SyscallError::Efault => -14,
        SyscallError::Einval => -22,
    }
}

impl SyscallError {
    /// The negative code that user code receives for this error.
    pub fn code(self) -> (r: i64)
        ensures
            r == error_code(self),
    {
        match self {
            SyscallError::Enosys => -38,
            SyscallError::Ebadf => -9,
            SyscallError::Efault => -14,
            SyscallError::Einval => -22,
        }
    }
}

/// The range of `len` bytes at `ptr` may be read or written by the kernel on
/// behalf of user code: it is empty, or it lies wholly inside user memory.
pub open spec fn user_range_ok(ptr: usize, len: usize) -> bool {
    len == 0 || (USER_START <= ptr < USER_END && ptr + len <= USER_END)
}

/// A user buffer whose range has been checked.
#[derive(Debug)]
pub struct UserBuffer {
    pub(crate) ptr: usize,
    pub(crate) len: usize,
}

/// A user buffer whose range has been checked, to be written by the kernel.
#[derive(Debug)]
pub struct UserBufferMut {
    pub(crate) ptr: usize,
    pub(crate) len: usize,
}

impl UserBuffer {
    /// Start address of the buffer.
    pub open(crate) spec fn spec_ptr(&self) -> usize {
        self.ptr
    }

    /// Length of the buffer in bytes.
    pub open(crate) spec fn spec_len(&self) -> usize {
        self.len
    }

    /// Start address of the buffer.
    pub fn ptr(&self) -> (r: usize)
        ensures
            r == self.spec_ptr(),
    {
        self.ptr
    }

    /// Length of the buffer in bytes.
    pub fn len(&self) -> (r: usize)
        ensures
            r == self.spec_len(),
    {
        self.len
    }
}

impl UserBufferMut {
    /// Start address of the buffer.
    pub open(crate) spec fn spec_ptr(&self) -> usize {
        self.ptr
    }

    /// Length of the buffer in bytes.
    pub open(crate) spec fn spec_len(&self) -> usize {
        self.len
    }

    /// Start address of the buffer.
    pub fn ptr(&self) -> (r: usize)
        ensures
            r == self.spec_ptr(),
    {
        self.ptr
    }

    /// Length of the buffer in bytes.
    pub fn len(&self) -> (r: usize)
        ensures
            r == self.spec_len(),
    {
        self.len
    }
}

/// Check that user code may hand the kernel the `len` bytes at `ptr` to read.
///
/// An empty buffer is always accepted; otherwise the whole range must lie in
/// user memory, or `Efault` comes back.
pub fn validate_user_read(ptr: usize, len: usize) -> (r: Result<UserBuffer, SyscallError>)
    ensures
        r is Ok <==> user_range_ok(ptr, len),
        r is Ok ==> r->Ok_0.spec_ptr() == ptr && r->Ok_0.spec_len() == len,
        r is Err ==> r->Err_0 == SyscallError::Efault,
{
    if len == 0 {
        return Ok(UserBuffer { ptr, len: 0 });
    }
    if ptr == 0 {
        return Err(SyscallError::Efault);
    }
    if ptr < USER_START || ptr >= USER_END {
        return Err(SyscallError::Efault);
    }
    let end = match ptr.checked_add(len) {
        Some(e) => e,
        None => return Err(SyscallError::Efault),
    };
    if end > USER_END {
        return Err(SyscallError::Efault);
    }
    Ok(UserBuffer { ptr, len })
}

/// Check that user code may hand the kernel the `len` bytes at `ptr` to write;
/// the same rule as for reading.
pub fn validate_user_write(ptr: usize, len: usize) -> (r: Result<UserBufferMut, SyscallError>)
    ensures
        r is Ok <==> user_range_ok(ptr, len),
        r is Ok ==> r->Ok_0.spec_ptr() == ptr && r->Ok_0.spec_len() == len,
        r is Err ==> r->Err_0 == SyscallError::Efault,
{
    let read_buf = validate_user_read(ptr, len)?;
    Ok(UserBufferMut { ptr: read_buf.ptr, len: read_buf.len })
}

/// What the kernel does for a system call.
#[derive(Debug)]
pub enum SyscallAction {
    /// End the calling process with this status.
    Exit(i32),
    /// Copy the checked buffer to the console; the call returns its length.
    Write(UserBuffer),
    /// Return this error to the caller.
    Fail(SyscallError),
}

/// The decision for a write of `len` bytes at `buf` to descriptor `fd`:
/// only standard output and standard error can be written, and the buffer
/// must pass the user-range check.
pub open spec fn write_decision(fd: i32, buf: usize, len: usize) -> Result<(), SyscallError> {
    if fd != 1 && fd != 2 {
        Err(SyscallError::Ebadf)
    } else if !user_range_ok(buf, len) {
        Err(SyscallError::Efault)
    } else {
        Ok(())
    }
}

/// Decide what the system call numbered `syscall_num` with the argument
/// registers of `ctx` asks for.
///
/// Register x0 carries the exit status or the file descriptor, x1 the buffer
/// address and x2 its length; an unknown number gives `Enosys`.
pub fn dispatch(syscall_num: usize, ctx: &ExceptionContext) -> (r: SyscallAction)
    ensures
        syscall_num == SYS_EXIT ==> r == SyscallAction::Exit(ctx.gpr@[0] as i32),
        syscall_num == SYS_WRITE ==> (match write_decision(ctx.gpr@[0] as i32, ctx.gpr@[1] as usize, ctx.gpr@[2] as usize) {
            Ok(_) => r matches SyscallAction::Write(b) && b.spec_ptr() == ctx.gpr@[1] as usize && b.spec_len()
                == ctx.gpr@[2] as usize,
            Err(e) => r == SyscallAction::Fail(e),
        }),
        syscall_num != SYS_EXIT && syscall_num != SYS_WRITE ==> r == SyscallAction::Fail(SyscallError::Enosys),
{
    if syscall_num == SYS_EXIT {
        SyscallAction::Exit(ctx.gpr[0] as i32)
    } else if syscall_num == SYS_WRITE {
        sys_write(ctx.gpr[0] as i32, ctx.gpr[1] as usize, ctx.gpr[2] as usize)
    } else {
        SyscallAction::Fail(SyscallError::Enosys)
    }
}

/// The decision for a write call.
fn sys_write(fd: i32, buf: usize, len: usize) -> (r: SyscallAction)
    ensures
        (match write_decision(fd, buf, len) {
            Ok(_) => r matches SyscallAction::Write(b) && b.spec_ptr() == buf && b.spec_len() == len,
            Err(e) => r == SyscallAction::Fail(e),
        }),
{
    if fd != 1 && fd != 2 {
        return SyscallAction::Fail(SyscallError::Ebadf);
    }
    match validate_user_read(buf, len) {
        Ok(b) => SyscallAction::Write(b),
        Err(e) => SyscallAction::Fail(e),
    }
}

} // verus!
