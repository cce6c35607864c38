//! Saved register state of an exception and the decoding of its cause.
use vstd::prelude::*;

verus! {

/// Registers saved on entry to an exception handler.
#[derive(Clone, Copy, Debug)]
pub struct ExceptionContext {
    /// General-purpose registers x0 to x30.
    pub gpr: [u64; 31],
    /// Return address.
    pub elr: u64,
    /// Saved program status.
    pub spsr: u64,
    /// Exception syndrome.
    pub esr: u64,
    /// Faulting address.
    pub far: u64,
}

/// Cause of a synchronous exception, from bits 26 to 31 of the syndrome.
#[derive(Clone, Copy, PartialEq, Eq, Debug, Structural)]
pub enum ExceptionClass {
    /// Unknown reason.
    Unknown,
    /// Supervisor call from 64-bit code: a system call.
    SvcAarch64,
    /// Instruction abort from user code.
    InstructionAbortLowerEl,
    /// Instruction abort from the kernel.
    InstructionAbortSameEl,
    /// Data abort from user code.
    DataAbortLowerEl,
    /// Data abort from the kernel.
    DataAbortSameEl,
    /// Any other cause.
    Other,
}

/// The class that the syndrome value `esr` reports.
pub open spec fn class_of(esr: u64) -> ExceptionClass {
    let ec = (esr / 0x400_0000) % 64;
    if ec == 0x00 {
        ExceptionClass::Unknown
    } else if ec == 0x15 {
        ExceptionClass::SvcAarch64
    } else if ec == 0x20 {
        ExceptionClass::InstructionAbortLowerEl
    } else if ec == 0x21 {
        ExceptionClass::InstructionAbortSameEl
    } else if ec == 0x24 {
        ExceptionClass::DataAbortLowerEl
    } else if ec == 0x25 {
        ExceptionClass::DataAbortSameEl
    } else {
        ExceptionClass::Other
    }
}

impl From<u64> for ExceptionClass {
    fn from(esr: u64) -> (r: ExceptionClass)
        ensures
            r == class_of(esr),
    {
        let ec = ((esr >> 26) & 0x3F) as u8;
        assert((esr >> 26) & 0x3F == (esr / 0x400_0000) % 64) by (bit_vector);
        match ec {
            0x00 => ExceptionClass::Unknown,
            0x15 => ExceptionClass::SvcAarch64,
            0x20 => ExceptionClass::InstructionAbortLowerEl,
            0x21 => ExceptionClass::InstructionAbortSameEl,
            0x24 => ExceptionClass::DataAbortLowerEl,
            0x25 => ExceptionClass::DataAbortSameEl,
            _ => ExceptionClass::Other,
        }
    }
}

impl vstd::std_specs::convert::FromSpecImpl<u64> for ExceptionClass {
    open spec fn obeys_from_spec() -> bool {
        true
    }

    open spec fn from_spec(esr: u64) -> ExceptionClass {
        class_of(esr)
    }
}

} // verus!
