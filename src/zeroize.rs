//! Clearing secrets from memory.
//!
//! `Zeroize` overwrites a value with zeros and then fences the compiler, so
//! that the writes stay in place.
use core::sync::atomic::{compiler_fence, Ordering};
use vstd::prelude::*;

verus! {

/// Relies on `core::sync::atomic::compiler_fence` with `SeqCst`: no memory
/// access is moved across this point by the compiler.
#[verifier::external_body]
fn fence() {
    compiler_fence(Ordering::SeqCst)
}

/// Values that can be overwritten with zeros.
pub trait Zeroize {
    /// Every byte of the value is zero.
    spec fn is_zeroed(&self) -> bool;

    /// Overwrite the value with zeros.
    fn zeroize(&mut self)
        ensures
            final(self).is_zeroed(),
    ;
}

impl<const N: usize> Zeroize for [u8; N] {
    open spec fn is_zeroed(&self) -> bool {
        forall|i: int| 0 <= i < N ==> #[trigger] self@[i] == 0u8
    }

    fn zeroize(&mut self) {
        let mut i: usize = 0;
        while i < N
            invariant
                i <= N,
                self@.len() == N,
                forall|j: int| 0 <= j < i ==> #[trigger] self@[j] == 0u8,
            decreases N - i,
        {
            self[i] = 0;
            i = i + 1;
        }
        fence();
    }
}

impl Zeroize for u64 {
    open spec fn is_zeroed(&self) -> bool {
        *self == 0
    }

    fn zeroize(&mut self) {
        *self = 0;
        fence();
    }
}

impl Zeroize for u32 {
    open spec fn is_zeroed(&self) -> bool {
        *self == 0
    }

    fn zeroize(&mut self) {
        *self = 0;
        fence();
    }
}

impl Zeroize for usize {
    open spec fn is_zeroed(&self) -> bool {
        *self == 0
    }

    fn zeroize(&mut self) {
        *self = 0;
        fence();
    }
}

} // verus!
