//! SPI on top of a USART.
//!
//! The vendor's SPI driver does the transfers. This module decides what it
//! is asked to do and what its answers mean: it builds the record that the
//! driver is initialised with, checks the length of every transfer before
//! the driver sees it, and turns the driver's status codes into results.

use vstd::prelude::*;

verus! {

/// The status code with which the vendor's driver reports success.
pub const ECODE_OK: u32 = 0;

/// The driver acts as the bus master.
pub const SPIDRV_MASTER: u32 = 0;

/// The least significant bit of a frame goes out first.
pub const SPIDRV_BIT_ORDER_LSB_FIRST: u32 = 0;

/// The most significant bit of a frame goes out first.
pub const SPIDRV_BIT_ORDER_MSB_FIRST: u32 = 1;

/// Clock idles low, data is sampled on the first edge.
pub const SPIDRV_CLOCK_MODE_0: u32 = 0;

/// Clock idles low, data is sampled on the second edge.
pub const SPIDRV_CLOCK_MODE_1: u32 = 1;

/// Clock idles high, data is sampled on the first edge.
pub const SPIDRV_CLOCK_MODE_2: u32 = 2;

/// Clock idles high, data is sampled on the second edge.
pub const SPIDRV_CLOCK_MODE_3: u32 = 3;

/// The driver asserts and releases chip select around each transfer.
pub const SPIDRV_CS_CONTROL_AUTO: u32 = 0;

/// A slave starts its transfer at once. Inert for a master.
pub const SPIDRV_SLAVE_START_IMMEDIATE: u32 = 0;

/// Bits in a frame.
pub const FRAME_LENGTH: u32 = 8;

/// What the driver sends while it only receives.
pub const DUMMY_TX_VALUE: u32 = 0;

/// The longest transfer that the driver's signed 32-bit length can express.
pub const MAX_TRANSFER_LENGTH: usize = 0x7fff_ffff;

/// The highest location on a USART's pin matrix.
pub const MAX_PIN_LOCATION: u8 = 31;

/// Represents a single USART.
///
/// Usually you'll take this from the `Peripherals` struct rather than
/// creating it yourself: there is one value per register block, and whoever
/// holds it owns that block.
pub struct USART {
    base: u32,
}

impl View for USART {
    type V = u32;

    /// A USART is known by the base address of its register block.
    closed spec fn view(&self) -> u32 {
        self.base
    }
}

impl USART {
    /// The USART whose register block starts at `base`.
    pub(crate) fn at(base: u32) -> (handle: USART)
        ensures
            handle@ == base,
    {
        USART { base }
    }

    /// The base address of the register block.
    pub fn base(&self) -> (address: u32)
        ensures
            address == self@,
    {
        self.base
    }
}

/// A location on a USART's pin matrix.
#[derive(Clone, Copy, Debug, PartialEq, Eq)]
pub enum Pin {
    Pin0,
    Pin1,
    Pin2,
    Pin3,
    Pin4,
    Pin5,
    Pin6,
    Pin7,
    Pin8,
    Pin9,
    Pin10,
    Pin11,
    Pin12,
    Pin13,
    Pin14,
    Pin15,
    Pin16,
    Pin17,
    Pin18,
    Pin19,
    Pin20,
    Pin21,
    Pin22,
    Pin23,
    Pin24,
    Pin25,
    Pin26,
    Pin27,
    Pin28,
    Pin29,
    Pin30,
    Pin31,
}

impl Pin {
    /// The number that the pin matrix knows this location by.
    pub open spec fn number(self) -> u8 {
        match self {
            Pin::Pin0 => 0,
            Pin::Pin1 => 1,
            Pin::Pin2 => 2,
            Pin::Pin3 => 3,
            Pin::Pin4 => 4,
            Pin::Pin5 => 5,
            Pin::Pin6 => 6,
            Pin::Pin7 => 7,
            Pin::Pin8 => 8,
            Pin::Pin9 => 9,
            Pin::Pin10 => 10,
            Pin::Pin11 => 11,
            Pin::Pin12 => 12,
            Pin::Pin13 => 13,
            Pin::Pin14 => 14,
            Pin::Pin15 => 15,
            Pin::Pin16 => 16,
            Pin::Pin17 => 17,
            Pin::Pin18 => 18,
            Pin::Pin19 => 19,
            Pin::Pin20 => 20,
            Pin::Pin21 => 21,
            Pin::Pin22 => 22,
            Pin::Pin23 => 23,
            Pin::Pin24 => 24,
            Pin::Pin25 => 25,
            Pin::Pin26 => 26,
            Pin::Pin27 => 27,
            Pin::Pin28 => 28,
            Pin::Pin29 => 29,
            Pin::Pin30 => 30,
            Pin::Pin31 => 31,
        }
    }
}

/// Gives the number of `pin` on the pin matrix.
pub fn pin_to_number(pin: Pin) -> (number: u8)
    ensures
        number == pin.number(),
        number <= MAX_PIN_LOCATION,
{
    match pin {
        Pin::Pin0 => 0,
        Pin::Pin1 => 1,
        Pin::Pin2 => 2,
        Pin::Pin3 => 3,
        Pin::Pin4 => 4,
        Pin::Pin5 => 5,
        Pin::Pin6 => 6,
        Pin::Pin7 => 7,
        Pin::Pin8 => 8,
        Pin::Pin9 => 9,
        Pin::Pin10 => 10,
        Pin::Pin11 => 11,
        Pin::Pin12 => 12,
        Pin::Pin13 => 13,
        Pin::Pin14 => 14,
        Pin::Pin15 => 15,
        Pin::Pin16 => 16,
        Pin::Pin17 => 17,
        Pin::Pin18 => 18,
        Pin::Pin19 => 19,
        Pin::Pin20 => 20,
        Pin::Pin21 => 21,
        Pin::Pin22 => 22,
        Pin::Pin23 => 23,
        Pin::Pin24 => 24,
        Pin::Pin25 => 25,
        Pin::Pin26 => 26,
        Pin::Pin27 => 27,
        Pin::Pin28 => 28,
        Pin::Pin29 => 29,
        Pin::Pin30 => 30,
        Pin::Pin31 => 31,
    }
}

/// Every pin has a number of its own, and none lies beyond the matrix.
pub proof fn lemma_pin_numbers_distinct(a: Pin, b: Pin)
    ensures
        a.number() <= MAX_PIN_LOCATION,
        a.number() == b.number() <==> a == b,
{
}

/// The pins on a USART to run our SPI on.
#[derive(Clone, Copy, Debug, PartialEq, Eq)]
pub struct SPIPins {
    /// The transmit pin
    pub tx: Pin,
    /// The receive pin
    pub rx: Pin,
    /// The clock pin
    pub clk: Pin,
    /// The chip select pin
    pub cs: Pin,
}

/// The bit order for an SPI
#[derive(Clone, Copy, Debug, PartialEq, Eq)]
pub enum BitOrder {
    /// Most significant bit first
    MSBFirst,
    /// Least significant bit first
    LSBFirst,
}

impl BitOrder {
    /// The driver's constant for this bit order.
    pub open spec fn spec_code(self) -> u32 {
        match self {
            BitOrder::MSBFirst => SPIDRV_BIT_ORDER_MSB_FIRST,
            BitOrder::LSBFirst => SPIDRV_BIT_ORDER_LSB_FIRST,
        }
    }

    /// Gives the driver's constant for this bit order.
    #[verifier::when_used_as_spec(spec_code)]
    pub fn code(self) -> (code: u32)
        ensures
            code == self.spec_code(),
    {
        match self {
            BitOrder::MSBFirst => SPIDRV_BIT_ORDER_MSB_FIRST,
            BitOrder::LSBFirst => SPIDRV_BIT_ORDER_LSB_FIRST,
        }
    }
}

/// The level of the clock line while the bus is idle.
#[derive(Clone, Copy, Debug, PartialEq, Eq)]
pub enum Polarity {
    /// Clock signal low when idle
    IdleLow,
    /// Clock signal high when idle
    IdleHigh,
}

impl Polarity {
    /// The clock polarity bit: 1 where the clock idles high.
    pub open spec fn cpol(self) -> int {
        match self {
            Polarity::IdleLow => 0,
            Polarity::IdleHigh => 1,
        }
    }
}

/// The clock edge on which data is sampled.
#[derive(Clone, Copy, Debug, PartialEq, Eq)]
pub enum Phase {
    /// Data is captured on the first clock transition
    CaptureOnFirstTransition,
    /// Data is captured on the second clock transition
    CaptureOnSecondTransition,
}

impl Phase {
    /// The clock phase bit: 1 where data is sampled on the second edge.
    pub open spec fn cpha(self) -> int {
        match self {
            Phase::CaptureOnFirstTransition => 0,
            Phase::CaptureOnSecondTransition => 1,
        }
    }
}

/// An SPI clock mode: a polarity and a phase.
#[derive(Clone, Copy, Debug, PartialEq, Eq)]
pub struct Mode {
    /// Clock polarity
    pub polarity: Polarity,
    /// Clock phase
    pub phase: Phase,
}

impl Mode {
    /// The driver numbers its clock modes as SPI does: the polarity bit
    /// above the phase bit.
    pub open spec fn spec_code(self) -> u32 {
        (2 * self.polarity.cpol() + self.phase.cpha()) as u32
    }

    /// Gives the driver's constant for this clock mode.
    #[verifier::when_used_as_spec(spec_code)]
    pub fn code(self) -> (code: u32)
        ensures
            code == self.spec_code(),
    {
        match (self.polarity, self.phase) {
            (Polarity::IdleLow, Phase::CaptureOnFirstTransition) => SPIDRV_CLOCK_MODE_0,
            (Polarity::IdleLow, Phase::CaptureOnSecondTransition) => SPIDRV_CLOCK_MODE_1,
            (Polarity::IdleHigh, Phase::CaptureOnFirstTransition) => SPIDRV_CLOCK_MODE_2,
            (Polarity::IdleHigh, Phase::CaptureOnSecondTransition) => SPIDRV_CLOCK_MODE_3,
        }
    }
}

/// The clock modes and the driver's four clock-mode constants match one to
/// one: every mode has a constant, two modes never share one, and every one
/// of the four constants belongs to a mode.
pub proof fn lemma_clock_mode_codes(a: Mode, b: Mode, code: u32)
    ensures
        a.spec_code() == SPIDRV_CLOCK_MODE_0 || a.spec_code() == SPIDRV_CLOCK_MODE_1
            || a.spec_code() == SPIDRV_CLOCK_MODE_2 || a.spec_code() == SPIDRV_CLOCK_MODE_3,
        a.spec_code() == b.spec_code() <==> a == b,
        code <= SPIDRV_CLOCK_MODE_3 ==> exists|m: Mode| #[trigger] m.spec_code() == code,
{
    let first = Phase::CaptureOnFirstTransition;
    let second = Phase::CaptureOnSecondTransition;
    assert(Mode { polarity: Polarity::IdleLow, phase: first }.spec_code() == 0);
    assert(Mode { polarity: Polarity::IdleLow, phase: second }.spec_code() == 1);
    assert(Mode { polarity: Polarity::IdleHigh, phase: first }.spec_code() == 2);
    assert(Mode { polarity: Polarity::IdleHigh, phase: second }.spec_code() == 3);
}

/// What the vendor's SPI driver is initialised with, field for field.
#[derive(Clone, Copy, Debug, PartialEq, Eq)]
pub struct SPIConfig {
    /// Base address of the USART that the driver runs on
    pub port: u32,
    /// Location of the transmit pin
    pub port_location_tx: u8,
    /// Location of the receive pin
    pub port_location_rx: u8,
    /// Location of the clock pin
    pub port_location_clk: u8,
    /// Location of the chip select pin
    pub port_location_cs: u8,
    /// Bits per second
    pub bit_rate: u32,
    /// Bits per frame
    pub frame_length: u32,
    /// What goes out while the driver only receives
    pub dummy_tx_value: u32,
    /// Master or slave
    pub kind: u32,
    /// Which bit of a frame goes out first
    pub bit_order: u32,
    /// Clock polarity and phase
    pub clock_mode: u32,
    /// Who drives chip select
    pub cs_control: u32,
    /// When a slave starts its transfer
    pub slave_start_mode: u32,
}

impl SPIConfig {
    /// The record for an SPI master on the USART at `port`: eight-bit
    /// frames, zeroes as dummy output, chip select left to the driver.
    pub open spec fn spec_new(
        port: u32,
        pins: SPIPins,
        bit_rate: u32,
        clock_mode: Mode,
        bit_order: BitOrder,
    ) -> SPIConfig {
        SPIConfig {
            port,
            port_location_tx: pins.tx.number(),
            port_location_rx: pins.rx.number(),
            port_location_clk: pins.clk.number(),
            port_location_cs: pins.cs.number(),
            bit_rate,
            frame_length: FRAME_LENGTH,
            dummy_tx_value: DUMMY_TX_VALUE,
            kind: SPIDRV_MASTER,
            bit_order: bit_order.spec_code(),
            clock_mode: clock_mode.spec_code(),
            cs_control: SPIDRV_CS_CONTROL_AUTO,
            slave_start_mode: SPIDRV_SLAVE_START_IMMEDIATE,
        }
    }

    /// Holds of every record that this module builds: the pins lie on the
    /// matrix, the bit order and the clock mode are constants of the driver,
    /// and the fixed fields have their fixed values.
    pub open spec fn wf(self) -> bool {
        &&& self.port_location_tx <= MAX_PIN_LOCATION
        &&& self.port_location_rx <= MAX_PIN_LOCATION
        &&& self.port_location_clk <= MAX_PIN_LOCATION
        &&& self.port_location_cs <= MAX_PIN_LOCATION
        &&& self.frame_length == FRAME_LENGTH
        &&& self.dummy_tx_value == DUMMY_TX_VALUE
        &&& self.kind == SPIDRV_MASTER
        &&& (self.bit_order == SPIDRV_BIT_ORDER_MSB_FIRST || self.bit_order
            == SPIDRV_BIT_ORDER_LSB_FIRST)
        &&& self.clock_mode <= SPIDRV_CLOCK_MODE_3
        &&& self.cs_control == SPIDRV_CS_CONTROL_AUTO
        &&& self.slave_start_mode == SPIDRV_SLAVE_START_IMMEDIATE
    }

    /// Builds the record that initialises the driver as an SPI master on
    /// `port`. Any bit rate is passed on as it is.
    pub fn new(
        port: &USART,
        pins: SPIPins,
        bit_rate: u32,
        clock_mode: Mode,
        bit_order: BitOrder,
    ) -> (config: SPIConfig)
        ensures
            config == Self::spec_new(port@, pins, bit_rate, clock_mode, bit_order),
            config.wf(),
    {
        SPIConfig {
            port: port.base(),
            port_location_tx: pin_to_number(pins.tx),
            port_location_rx: pin_to_number(pins.rx),
            port_location_clk: pin_to_number(pins.clk),
            port_location_cs: pin_to_number(pins.cs),
            bit_rate,
            frame_length: FRAME_LENGTH,
            dummy_tx_value: DUMMY_TX_VALUE,
            kind: SPIDRV_MASTER,
            bit_order: bit_order.code(),
            clock_mode: clock_mode.code(),
            cs_control: SPIDRV_CS_CONTROL_AUTO,
            slave_start_mode: SPIDRV_SLAVE_START_IMMEDIATE,
        }
    }
}

/// Two records are the same only if they were built from the same USART,
/// pins, bit rate, clock mode and bit order.
pub proof fn lemma_config_keeps_arguments(
    port_a: u32,
    pins_a: SPIPins,
    bit_rate_a: u32,
    clock_mode_a: Mode,
    bit_order_a: BitOrder,
    port_b: u32,
    pins_b: SPIPins,
    bit_rate_b: u32,
    clock_mode_b: Mode,
    bit_order_b: BitOrder,
)
    requires
        SPIConfig::spec_new(port_a, pins_a, bit_rate_a, clock_mode_a, bit_order_a)
            == SPIConfig::spec_new(port_b, pins_b, bit_rate_b, clock_mode_b, bit_order_b),
    ensures
        port_a == port_b,
        pins_a == pins_b,
        bit_rate_a == bit_rate_b,
        clock_mode_a == clock_mode_b,
        bit_order_a == bit_order_b,
{
    lemma_pin_numbers_distinct(pins_a.tx, pins_b.tx);
    lemma_pin_numbers_distinct(pins_a.rx, pins_b.rx);
    lemma_pin_numbers_distinct(pins_a.clk, pins_b.clk);
    lemma_pin_numbers_distinct(pins_a.cs, pins_b.cs);
    lemma_clock_mode_codes(clock_mode_a, clock_mode_b, 0);
}

/// Errors that can happen when working with SPI.
#[derive(Clone, Copy, Debug, PartialEq, Eq)]
pub enum SPIError {
    /// The vendor's driver answered with this status code, which is not
    /// `ECODE_OK`.
    Unknown(u32),
    /// The buffer is longer than the driver's length argument can express.
    TransferTooBig,
}

impl SPIError {
    /// What a status code of the driver means: `ECODE_OK` is success, any
    /// other code is an error that carries the code.
    pub open spec fn spec_check(status: u32) -> Result<(), SPIError> {
        if status == ECODE_OK {
            Ok(())
        } else {
            Err(SPIError::Unknown(status))
        }
    }

    /// Turns a status code of the driver into a result.
    pub fn check(status: u32) -> (r: Result<(), SPIError>)
        ensures
            r == Self::spec_check(status),
    {
        if status == ECODE_OK {
            Ok(())
        } else {
            Err(SPIError::Unknown(status))
        }
    }
}

/// The length argument for a buffer of `len` bytes, where the driver's
/// signed 32-bit length can express it.
pub open spec fn spec_transfer_length(len: nat) -> Result<i32, SPIError> {
    if len <= MAX_TRANSFER_LENGTH {
        Ok(len as i32)
    } else {
        Err(SPIError::TransferTooBig)
    }
}

/// Checks the length of a buffer before the driver sees it, and gives the
/// length as the driver takes it.
pub fn transfer_length(len: usize) -> (r: Result<i32, SPIError>)
    ensures
        r == spec_transfer_length(len as nat),
        r is Ok <==> len <= MAX_TRANSFER_LENGTH,
        r matches Ok(length) ==> length == len,
{
    if len > MAX_TRANSFER_LENGTH {
        Err(SPIError::TransferTooBig)
    } else {
        Ok(len as i32)
    }
}

/// The order for one blocking full-duplex call of the driver: the buffer is
/// sent and overwritten in place with what comes in meanwhile.
#[derive(Clone, Copy, Debug, PartialEq, Eq)]
pub struct Transfer {
    /// The length to hand to the driver
    pub length: i32,
}

/// The order for one blocking transmit call of the driver: the buffer is
/// sent and what comes in is dropped.
#[derive(Clone, Copy, Debug, PartialEq, Eq)]
pub struct Transmit {
    /// The length to hand to the driver
    pub length: i32,
}

/// Implements SPI on top of a USART.
///
/// Note that we don't support slave mode just now.
///
/// A value of this type exists only once the vendor's driver has been
/// initialised with success on the USART it owns. The driver's own session
/// record is kept beside it by whoever makes the driver's calls.
pub struct SPI {
    port: USART,
    config: SPIConfig,
}

impl SPI {
    /// The USART that this SPI runs on and owns.
    pub closed spec fn spec_port(&self) -> USART {
        self.port
    }

    /// The record that the driver was initialised with.
    pub closed spec fn spec_config(&self) -> SPIConfig {
        self.config
    }

    #[verifier::type_invariant]
    spec fn inv(&self) -> bool {
        &&& self.config.port == self.port@
        &&& self.config.wf()
    }

    /// Makes the SPI for `port` once the vendor's driver has been
    /// initialised with `SPIConfig::new` of the same arguments and has
    /// answered `init_status`.
    ///
    /// With `ECODE_OK` the SPI owns `port` from now on. With any other
    /// status there is no SPI, and the status comes back in the error.
    pub fn new(
        port: USART,
        pins: SPIPins,
        bit_rate: u32,
        clock_mode: Mode,
        bit_order: BitOrder,
        init_status: u32,
    ) -> (r: Result<SPI, SPIError>)
        ensures
            init_status == ECODE_OK ==> r is Ok && r->Ok_0.spec_port() == port
                && r->Ok_0.spec_config() == SPIConfig::spec_new(
                port@,
                pins,
                bit_rate,
                clock_mode,
                bit_order,
            ),
            init_status != ECODE_OK ==> r is Err && r->Err_0 == SPIError::Unknown(init_status),
    {
        let config = SPIConfig::new(&port, pins, bit_rate, clock_mode, bit_order);
        match SPIError::check(init_status) {
            Ok(()) => Ok(SPI { port, config }),
            Err(error) => Err(error),
        }
    }

    /// The base address of the USART that this SPI runs on.
    pub fn base(&self) -> (address: u32)
        ensures
            address == self.spec_port()@,
            address == self.spec_config().port,
    {
        proof {
            use_type_invariant(self);
        }
        self.port.base()
    }

    /// The record that the driver was initialised with.
    #[verifier::when_used_as_spec(spec_config)]
    pub fn config(&self) -> (config: SPIConfig)
        ensures
            config == self.spec_config(),
            config.wf(),
            config.port == self.spec_port()@,
    {
        proof {
            use_type_invariant(self);
        }
        self.config
    }

    /// Starts a full-duplex transfer of `words`.
    ///
    /// A buffer that is too long is refused here, and the driver is not
    /// called. Otherwise the one order comes back for the driver's call,
    /// and `complete` takes the driver's answer.
    pub fn transfer(&mut self, words: &[u8]) -> (r: Result<Transfer, SPIError>)
        ensures
            *final(self) == *old(self),
            words@.len() <= MAX_TRANSFER_LENGTH ==> r == Ok::<Transfer, SPIError>(
                Transfer { length: words@.len() as i32 },
            ),
            words@.len() > MAX_TRANSFER_LENGTH ==> r == Err::<Transfer, SPIError>(
                SPIError::TransferTooBig,
            ),
    {
        match transfer_length(words.len()) {
            Ok(length) => Ok(Transfer { length }),
            Err(error) => Err(error),
        }
    }

    /// Starts a write of `words`.
    ///
    /// A buffer that is too long is refused here, and the driver is not
    /// called. Otherwise the one order comes back for the driver's call,
    /// and `complete` takes the driver's answer.
    pub fn write(&mut self, words: &[u8]) -> (r: Result<Transmit, SPIError>)
        ensures
            *final(self) == *old(self),
            words@.len() <= MAX_TRANSFER_LENGTH ==> r == Ok::<Transmit, SPIError>(
                Transmit { length: words@.len() as i32 },
            ),
            words@.len() > MAX_TRANSFER_LENGTH ==> r == Err::<Transmit, SPIError>(
                SPIError::TransferTooBig,
            ),
    {
        match transfer_length(words.len()) {
            Ok(length) => Ok(Transmit { length }),
            Err(error) => Err(error),
        }
    }

    /// Ends a transfer or a write with the status that the driver's call
    /// returned.
    pub fn complete(&mut self, status: u32) -> (r: Result<(), SPIError>)
        ensures
            *final(self) == *old(self),
            r == SPIError::spec_check(status),
    {
        SPIError::check(status)
    }
}

} // verus!
