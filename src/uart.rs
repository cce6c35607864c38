//! The console port, with its initialization state tracked in its type.
//!
//! A `Uart<Uninitialized>` can only be initialized; output goes through a
//! `Uart<Initialized>`. The register accesses themselves happen outside this
//! library: it decides which bytes go out.
use core::marker::PhantomData;
use vstd::prelude::*;
use vstd::string::StringSliceAdditionalSpecFns;

verus! {

/// Physical base address of the console registers.
pub const UART_BASE: usize = 0x0900_0000;

/// Offset of the data register.
pub const REG_DR: usize = 0x00;

/// Offset of the flag register.
pub const REG_FR: usize = 0x18;

/// Flag bit: the transmit queue is full.
pub const FLAG_TXFF: u32 = 0x20;

/// Flag bit: the receive queue is empty.
pub const FLAG_RXFE: u32 = 0x10;

/// State of a port that has not been set up.
pub struct Uninitialized;

/// State of a port that is ready for input and output.
pub struct Initialized;

/// The states that a port can be in.
pub trait UartState {

}

impl UartState for Uninitialized {

}

impl UartState for Initialized {

}

/// A console port at a register base address, in state `S`.
pub struct Uart<S: UartState> {
    pub(crate) base: usize,
    pub(crate) _state: PhantomData<S>,
}

impl<S: UartState> Uart<S> {
    /// Register base address of the port.
    pub open(crate) spec fn spec_base(&self) -> usize {
        self.base
    }

    /// Register base address of the port.
    pub fn base(&self) -> (r: usize)
        ensures
            r == self.spec_base(),
    {
        self.base
    }
}

impl Uart<Uninitialized> {
    /// A port whose registers start at `base`, not yet set up.
    pub fn new(base: usize) -> (r: Uart<Uninitialized>)
        ensures
            r.spec_base() == base,
    {
        Uart { base, _state: PhantomData }
    }

    /// Set the port up; the firmware has programmed it already, so only the
    /// state changes.
    pub fn init(self) -> (r: Uart<Initialized>)
        ensures
            r.spec_base() == self.spec_base(),
    {
        Uart { base: self.base, _state: PhantomData }
    }
}

/// The bytes sent for text `s`: each line feed is preceded by a carriage return.
pub open spec fn console_bytes_of(s: Seq<u8>) -> Seq<u8>
    decreases s.len(),
{
    if s.len() == 0 {
        Seq::empty()
    } else if s.last() == 10u8 {
        console_bytes_of(s.drop_last()).push(13u8).push(10u8)
    } else {
        console_bytes_of(s.drop_last()).push(s.last())
    }
}

/// The bytes that writing `s` to the console sends, in order.
pub fn console_bytes(s: &str) -> (r: Vec<u8>)
    ensures
        r@ == console_bytes_of(s.spec_bytes()),
{
    let bytes = s.as_bytes();
    let mut out: Vec<u8> = Vec::new();
    let mut i: usize = 0;
    while i < bytes.len()
        invariant
            i <= bytes@.len(),
            bytes@ == s.spec_bytes(),
            out@ == console_bytes_of(bytes@.take(i as int)),
        decreases bytes@.len() - i,
    {
        let b = bytes[i];
        if b == 10u8 {
            out.push(13u8);
        }
        out.push(b);
        proof {
            assert(bytes@.take(i + 1).drop_last() =~= bytes@.take(i as int));
        }
        i = i + 1;
    }
    proof {
        assert(bytes@.take(i as int) =~= bytes@);
    }
    out
}

/// Setup state of the shared console.
pub enum GlobalUartState {
    /// Not set up yet.
    Uninitialized(Uart<Uninitialized>),
    /// Ready for output.
    Initialized(Uart<Initialized>),
}

/// The shared console, set up at most once.
pub struct GlobalUart {
    pub(crate) state: GlobalUartState,
}

impl GlobalUart {
    /// Whether the console has been set up.
    pub open(crate) spec fn spec_ready(&self) -> bool {
        self.state is Initialized
    }

    /// Register base address of the console.
    pub open(crate) spec fn spec_base(&self) -> usize {
        match self.state {
            GlobalUartState::Uninitialized(u) => u.spec_base(),
            GlobalUartState::Initialized(u) => u.spec_base(),
        }
    }

    /// The console at its fixed base address, not yet set up.
    pub fn new() -> (r: GlobalUart)
        ensures
            !r.spec_ready(),
            r.spec_base() == UART_BASE,
    {
        GlobalUart { state: GlobalUartState::Uninitialized(Uart::new(UART_BASE)) }
    }

    /// Set the console up unless it is already.
    pub fn init(&mut self)
        ensures
            final(self).spec_ready(),
            final(self).spec_base() == old(self).spec_base(),
    {
        let base = match &self.state {
            GlobalUartState::Uninitialized(uart) => Some(uart.base),
            GlobalUartState::Initialized(_) => None,
        };
        if let Some(b) = base {
            let uart = Uart::<Uninitialized>::new(b);
            self.state = GlobalUartState::Initialized(uart.init());
        }
    }

    /// The set-up port, or nothing while the console is not set up.
    pub fn as_initialized(&self) -> (r: Option<&Uart<Initialized>>)
        ensures
            r is Some <==> self.spec_ready(),
            r is Some ==> r->Some_0.spec_base() == self.spec_base(),
    {
        match &self.state {
            GlobalUartState::Initialized(uart) => Some(uart),
            GlobalUartState::Uninitialized(_) => None,
        }
    }
}

} // verus!
