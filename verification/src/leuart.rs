//! Serial interface on a low-energy UART.
//!
//! The register block is read and written by whoever holds the hardware.
//! This module decides: it builds the record that the LEUART is initialised
//! with, and for every read, write and flush it says from the status
//! register alone whether the operation goes ahead or would block.

use vstd::prelude::*;

verus! {

/// Neither the receiver nor the transmitter is enabled.
pub const LEUART_DISABLE: u32 = 0x0;

/// The command bit that enables the receiver.
pub const LEUART_ENABLE_RX: u32 = 0x1;

/// The command bit that enables the transmitter.
pub const LEUART_ENABLE_TX: u32 = 0x4;

/// Both command bits: receiver and transmitter are enabled.
pub const LEUART_ENABLE: u32 = 0x5;

/// Control field for frames without a parity bit.
pub const LEUART_NO_PARITY: u32 = 0x0;

/// Control field for frames with an even parity bit.
pub const LEUART_EVEN_PARITY: u32 = 0x8;

/// Control field for frames with an odd parity bit.
pub const LEUART_ODD_PARITY: u32 = 0xc;

/// Control field for one stop bit.
pub const LEUART_STOPBITS_1: u32 = 0x0;

/// Control field for two stop bits.
pub const LEUART_STOPBITS_2: u32 = 0x10;

/// Control field for eight data bits.
pub const LEUART_DATABITS_8: u32 = 0x0;

/// Reference frequency that leaves the choice of the clock to the vendor's
/// library.
pub const LEUART_REF_FREQ_AUTO: u32 = 0;

/// Status bit: set when a transmission has completed and the transmit
/// buffer holds nothing more.
pub const LEUART_STATUS_TXC: u32 = 0x08;

/// Status bit: the level of the transmit buffer. Set while the buffer has
/// room, clear while it is full.
pub const LEUART_STATUS_TXBL: u32 = 0x10;

/// Status bit: set while received data waits in the receive buffer.
pub const LEUART_STATUS_RXDATAV: u32 = 0x20;

/// Represents a single low-energy UART.
///
/// Usually you'll take this from the `Peripherals` struct rather than
/// creating it yourself: there is one value per register block, and whoever
/// holds it owns that block.
pub struct LEUART {
    base: u32,
}

impl View for LEUART {
    type V = u32;

    /// A LEUART is known by the base address of its register block.
    closed spec fn view(&self) -> u32 {
        self.base
    }
}

impl LEUART {
    /// The LEUART whose register block starts at `base`.
    pub(crate) fn at(base: u32) -> (handle: LEUART)
        ensures
            handle@ == base,
    {
        LEUART { base }
    }

    /// The base address of the register block.
    pub fn base(&self) -> (address: u32)
        ensures
            address == self@,
    {
        self.base
    }
}

/// Controls the status of a LEUART
#[derive(Clone, Copy, Debug, PartialEq, Eq)]
pub enum Status {
    /// Disable both the receiver and the transmitter.
    Disabled,
    /// Enable the receiver only
    Receiver,
    /// Enable the transmitter only
    Transmitter,
    /// Enable the transmitter and the receiver
    TransmitterReceiver,
}

impl Status {
    /// Whether the receiver is enabled.
    pub open spec fn receives(self) -> bool {
        self is Receiver || self is TransmitterReceiver
    }

    /// Whether the transmitter is enabled.
    pub open spec fn transmits(self) -> bool {
        self is Transmitter || self is TransmitterReceiver
    }

    /// The enable field for this status: the command bit of each direction
    /// that is enabled.
    pub open spec fn spec_code(self) -> u32 {
        ((if self.receives() {
            LEUART_ENABLE_RX
        } else {
            0
        }) + (if self.transmits() {
            LEUART_ENABLE_TX
        } else {
            0
        })) as u32
    }

    /// Gives the enable field for this status.
    #[verifier::when_used_as_spec(spec_code)]
    pub fn code(self) -> (code: u32)
        ensures
            code == self.spec_code(),
    {
        match self {
            Status::Disabled => LEUART_DISABLE,
            Status::Receiver => LEUART_ENABLE_RX,
            Status::Transmitter => LEUART_ENABLE_TX,
            Status::TransmitterReceiver => LEUART_ENABLE,
        }
    }
}

/// Controls whether parity bits are used with the LEUART.
#[derive(Clone, Copy, Debug, PartialEq, Eq)]
pub enum Parity {
    /// No parity bits.
    NoParity,
    /// Even parity bits
    Even,
    /// Odd parity bits
    Odd,
}

impl Parity {
    /// The control field for this parity.
    pub open spec fn spec_code(self) -> u32 {
        match self {
            Parity::NoParity => LEUART_NO_PARITY,
            Parity::Even => LEUART_EVEN_PARITY,
            Parity::Odd => LEUART_ODD_PARITY,
        }
    }

    /// Gives the control field for this parity.
    #[verifier::when_used_as_spec(spec_code)]
    pub fn code(self) -> (code: u32)
        ensures
            code == self.spec_code(),
    {
        match self {
            Parity::NoParity => LEUART_NO_PARITY,
            Parity::Even => LEUART_EVEN_PARITY,
            Parity::Odd => LEUART_ODD_PARITY,
        }
    }
}

/// StopBits setting for LEUART
#[derive(Clone, Copy, Debug, PartialEq, Eq)]
pub enum StopBits {
    /// One stop bit
    One,
    /// Two stop bits
    Two,
}

impl StopBits {
    /// The control field for this number of stop bits.
    pub open spec fn spec_code(self) -> u32 {
        match self {
            StopBits::One => LEUART_STOPBITS_1,
            StopBits::Two => LEUART_STOPBITS_2,
        }
    }

    /// Gives the control field for this number of stop bits.
    #[verifier::when_used_as_spec(spec_code)]
    pub fn code(self) -> (code: u32)
        ensures
            code == self.spec_code(),
    {
        match self {
            StopBits::One => LEUART_STOPBITS_1,
            StopBits::Two => LEUART_STOPBITS_2,
        }
    }
}

/// What the vendor's library initialises a LEUART with, field for field.
#[derive(Clone, Copy, Debug, PartialEq, Eq)]
pub struct SerialConfig {
    /// Which of receiver and transmitter are enabled
    pub enable: u32,
    /// Reference clock frequency, or `LEUART_REF_FREQ_AUTO`
    pub ref_freq: u32,
    /// Bits per second
    pub baudrate: u32,
    /// Data bits in a frame
    pub databits: u32,
    /// Parity bit in a frame
    pub parity: u32,
    /// Stop bits in a frame
    pub stopbits: u32,
}

impl SerialConfig {
    /// The record for the given baud rate, status, parity and stop bits,
    /// with eight data bits and the reference clock left to the vendor's
    /// library.
    pub open spec fn spec_new(
        baud_rate: u32,
        status: Status,
        parity: Parity,
        stop_bits: StopBits,
    ) -> SerialConfig {
        SerialConfig {
            enable: status.spec_code(),
            ref_freq: LEUART_REF_FREQ_AUTO,
            baudrate: baud_rate,
            databits: LEUART_DATABITS_8,
            parity: parity.spec_code(),
            stopbits: stop_bits.spec_code(),
        }
    }

    /// Holds of every record that this module builds: each field that the
    /// vendor's library reads as an enumeration holds one of its constants,
    /// and the fixed fields have their fixed values.
    pub open spec fn wf(self) -> bool {
        &&& (self.enable == LEUART_DISABLE || self.enable == LEUART_ENABLE_RX || self.enable
            == LEUART_ENABLE_TX || self.enable == LEUART_ENABLE)
        &&& self.ref_freq == LEUART_REF_FREQ_AUTO
        &&& self.databits == LEUART_DATABITS_8
        &&& (self.parity == LEUART_NO_PARITY || self.parity == LEUART_EVEN_PARITY || self.parity
            == LEUART_ODD_PARITY)
        &&& (self.stopbits == LEUART_STOPBITS_1 || self.stopbits == LEUART_STOPBITS_2)
    }
}

/// A record shows the configuration it was built from: two records are the
/// same only if baud rate, status, parity and stop bits were.
pub proof fn lemma_config_keeps_arguments(
    baud_rate_a: u32,
    status_a: Status,
    parity_a: Parity,
    stop_bits_a: StopBits,
    baud_rate_b: u32,
    status_b: Status,
    parity_b: Parity,
    stop_bits_b: StopBits,
)
    requires
        SerialConfig::spec_new(baud_rate_a, status_a, parity_a, stop_bits_a) == SerialConfig::spec_new(
            baud_rate_b,
            status_b,
            parity_b,
            stop_bits_b,
        ),
    ensures
        baud_rate_a == baud_rate_b,
        status_a == status_b,
        parity_a == parity_b,
        stop_bits_a == stop_bits_b,
{
}

/// Serial Interface Error
#[derive(Clone, Copy, Debug, PartialEq, Eq)]
pub enum Error {
    /// A buffer overrun. Kept for the day the receive path looks at the
    /// hardware's overrun flag: nothing raises it yet.
    Overrun,
}

/// Why a non-blocking operation did not go ahead.
#[derive(Clone, Copy, Debug, PartialEq, Eq)]
pub enum Pending {
    /// Nothing can be done right now. This is no failure: try again later.
    WouldBlock,
    /// The operation failed.
    Other(Error),
}

/// The order to take one byte out of the receive buffer. The byte is what
/// the read gives.
#[derive(Clone, Copy, Debug, PartialEq, Eq)]
pub struct Receive;

/// The order to put one byte into the transmit buffer.
#[derive(Clone, Copy, Debug, PartialEq, Eq)]
pub struct Transmit {
    /// The byte to send
    pub byte: u8,
}

/// Whether the status register shows received data waiting.
pub open spec fn rx_data_valid(status: u32) -> bool {
    (status & LEUART_STATUS_RXDATAV) != 0
}

/// Whether the status register shows the transmit buffer full.
pub open spec fn tx_buffer_full(status: u32) -> bool {
    (status & LEUART_STATUS_TXBL) == 0
}

/// Whether the status register shows that the last byte has left the
/// shift register.
pub open spec fn tx_complete(status: u32) -> bool {
    (status & LEUART_STATUS_TXC) != 0
}

/// A serial interface for our LEUARTs
///
/// It owns the LEUART and remembers what it was initialised with. It keeps
/// no other state: every operation decides from the status register as it
/// is at that moment.
pub struct Serial {
    leuart: LEUART,
    config: SerialConfig,
}

impl Serial {
    /// The LEUART that this interface owns.
    pub closed spec fn spec_leuart(&self) -> LEUART {
        self.leuart
    }

    /// The record that the LEUART is initialised with.
    pub closed spec fn spec_config(&self) -> SerialConfig {
        self.config
    }

    #[verifier::type_invariant]
    spec fn inv(&self) -> bool {
        self.config.wf()
    }

    /// Makes the serial interface on `leuart` for the given configuration.
    ///
    /// The frames have eight data bits and the reference clock is left to
    /// the vendor's library. Any baud rate is taken as it is: where the
    /// clock cannot reach it, the vendor's library may clamp it, and that
    /// is accepted. The register block is to be programmed with `config()`
    /// once, before anything else is done on it.
    pub fn new(
        leuart: LEUART,
        baud_rate: u32,
        status: Status,
        parity: Parity,
        stop_bits: StopBits,
    ) -> (serial: Serial)
        ensures
            serial.spec_leuart() == leuart,
            serial.spec_config() == SerialConfig::spec_new(baud_rate, status, parity, stop_bits),
    {
        let config = SerialConfig {
            enable: status.code(),
            ref_freq: LEUART_REF_FREQ_AUTO,
            baudrate: baud_rate,
            databits: LEUART_DATABITS_8,
            parity: parity.code(),
            stopbits: stop_bits.code(),
        };
        Serial { leuart, config }
    }

    /// The base address of the register block that this interface owns.
    pub fn base(&self) -> (address: u32)
        ensures
            address == self.spec_leuart()@,
    {
        self.leuart.base()
    }

    /// The record that the LEUART is initialised with.
    #[verifier::when_used_as_spec(spec_config)]
    pub fn config(&self) -> (config: SerialConfig)
        ensures
            config == self.spec_config(),
            config.wf(),
    {
        proof {
            use_type_invariant(self);
        }
        self.config
    }

    /// Decides a read from the status register as it is now.
    ///
    /// Where no received data waits, the read would block and nothing is to
    /// be taken out of the receive buffer. Where data waits, the one order
    /// comes back to take a byte out. Nothing is remembered from one call
    /// to the next, so a read that would block can be tried again at will.
    pub fn read(&mut self, status: u32) -> (r: Result<Receive, Pending>)
        ensures
            *final(self) == *old(self),
            rx_data_valid(status) ==> r == Ok::<Receive, Pending>(Receive),
            !rx_data_valid(status) ==> r == Err::<Receive, Pending>(Pending::WouldBlock),
    {
        if (status & LEUART_STATUS_RXDATAV) != 0 {
            Ok(Receive)
        } else {
            Err(Pending::WouldBlock)
        }
    }

    /// Decides a write of `byte` from the status register as it is now.
    ///
    /// Where the transmit buffer is full, the write would block and nothing
    /// is to be put into it. Where it has room, the one order comes back to
    /// put `byte` into it. Nothing is remembered from one call to the next.
    pub fn write(&mut self, status: u32, byte: u8) -> (r: Result<Transmit, Pending>)
        ensures
            *final(self) == *old(self),
            !tx_buffer_full(status) ==> r == Ok::<Transmit, Pending>(Transmit { byte }),
            tx_buffer_full(status) ==> r == Err::<Transmit, Pending>(Pending::WouldBlock),
    {
        if (status & LEUART_STATUS_TXBL) == 0 {
            Err(Pending::WouldBlock)
        } else {
            Ok(Transmit { byte })
        }
    }

    /// Decides a flush from the status register as it is now: it is done
    /// once the last byte has left the shift register, and would block
    /// until then.
    pub fn flush(&mut self, status: u32) -> (r: Result<(), Pending>)
        ensures
            *final(self) == *old(self),
            tx_complete(status) ==> r == Ok::<(), Pending>(()),
            !tx_complete(status) ==> r == Err::<(), Pending>(Pending::WouldBlock),
    {
        if (status & LEUART_STATUS_TXC) != 0 {
            Ok(())
        } else {
            Err(Pending::WouldBlock)
        }
    }
}

} // verus!
