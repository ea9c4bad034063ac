use efr32_hal::peripherals::{Claim, Peripherals};
use efr32_hal::usart::{
    pin_to_number, transfer_length, BitOrder, Mode, Phase, Pin, Polarity, SPIConfig, SPIError,
    SPIPins, Transfer, Transmit, ECODE_OK, MAX_TRANSFER_LENGTH, SPI, USART,
};

const ALL_PINS: [Pin; 32] = [
    Pin::Pin0,
    Pin::Pin1,
    Pin::Pin2,
    Pin::Pin3,
    Pin::Pin4,
    Pin::Pin5,
    Pin::Pin6,
    Pin::Pin7,
    Pin::Pin8,
    Pin::Pin9,
    Pin::Pin10,
    Pin::Pin11,
    Pin::Pin12,
    Pin::Pin13,
    Pin::Pin14,
    Pin::Pin15,
    Pin::Pin16,
    Pin::Pin17,
    Pin::Pin18,
    Pin::Pin19,
    Pin::Pin20,
    Pin::Pin21,
    Pin::Pin22,
    Pin::Pin23,
    Pin::Pin24,
    Pin::Pin25,
    Pin::Pin26,
    Pin::Pin27,
    Pin::Pin28,
    Pin::Pin29,
    Pin::Pin30,
    Pin::Pin31,
];

const MODE_0: Mode = Mode { polarity: Polarity::IdleLow, phase: Phase::CaptureOnFirstTransition };
const MODE_1: Mode = Mode { polarity: Polarity::IdleLow, phase: Phase::CaptureOnSecondTransition };
const MODE_2: Mode = Mode { polarity: Polarity::IdleHigh, phase: Phase::CaptureOnFirstTransition };
const MODE_3: Mode = Mode { polarity: Polarity::IdleHigh, phase: Phase::CaptureOnSecondTransition };

/// A driver that answers every call with the status it was made with, and
/// records the lengths it was called with.
struct FakeDriver {
    answer: u32,
    transfers: Vec<i32>,
    transmits: Vec<i32>,
}

impl FakeDriver {
    fn answering(answer: u32) -> FakeDriver {
        FakeDriver { answer, transfers: Vec::new(), transmits: Vec::new() }
    }

    fn transfer(&mut self, order: Transfer) -> u32 {
        self.transfers.push(order.length);
        self.answer
    }

    fn transmit(&mut self, order: Transmit) -> u32 {
        self.transmits.push(order.length);
        self.answer
    }
}

fn usart0() -> USART {
    Peripherals::get(&mut Claim::new()).unwrap().usart0
}

fn usart1() -> USART {
    Peripherals::get(&mut Claim::new()).unwrap().usart1
}

fn pins() -> SPIPins {
    SPIPins { tx: Pin::Pin0, rx: Pin::Pin1, clk: Pin::Pin2, cs: Pin::Pin3 }
}

fn some_spi() -> SPI {
    SPI::new(usart0(), pins(), 1_000_000, MODE_0, BitOrder::MSBFirst, ECODE_OK).unwrap()
}

fn write(spi: &mut SPI, driver: &mut FakeDriver, words: &[u8]) -> Result<(), SPIError> {
    let order = spi.write(words)?;
    spi.complete(driver.transmit(order))
}

fn transfer(spi: &mut SPI, driver: &mut FakeDriver, words: &[u8]) -> Result<(), SPIError> {
    let order = spi.transfer(words)?;
    spi.complete(driver.transfer(order))
}

#[test]
fn pin_numbers_of_every_pin() {
    for (number, pin) in ALL_PINS.iter().enumerate() {
        assert_eq!(pin_to_number(*pin) as usize, number);
    }
    assert_eq!(pin_to_number(Pin::Pin0), 0);
    assert_eq!(pin_to_number(Pin::Pin17), 17);
    assert_eq!(pin_to_number(Pin::Pin31), 31);
}

#[test]
fn pin_numbers_are_distinct_and_on_the_matrix() {
    for a in ALL_PINS {
        assert!(pin_to_number(a) <= 31);
        for b in ALL_PINS {
            assert_eq!(pin_to_number(a) == pin_to_number(b), a == b);
        }
    }
}

#[test]
fn bit_order_codes_of_every_variant() {
    assert_eq!(BitOrder::MSBFirst.code(), 1);
    assert_eq!(BitOrder::LSBFirst.code(), 0);
}

#[test]
fn clock_mode_codes_of_every_mode() {
    assert_eq!(MODE_0.code(), 0);
    assert_eq!(MODE_1.code(), 1);
    assert_eq!(MODE_2.code(), 2);
    assert_eq!(MODE_3.code(), 3);
}

#[test]
fn clock_mode_codes_do_not_overlap() {
    let modes = [MODE_0, MODE_1, MODE_2, MODE_3];
    for a in modes {
        for b in modes {
            assert_eq!(a.code() == b.code(), a == b);
        }
    }
    let mut codes: Vec<u32> = modes.iter().map(|mode| mode.code()).collect();
    codes.sort();
    assert_eq!(codes, vec![0, 1, 2, 3]);
}

#[test]
fn config_holds_what_the_driver_is_initialised_with() {
    let port = usart0();
    let config = SPIConfig::new(&port, pins(), 1_000_000, MODE_0, BitOrder::MSBFirst);
    assert_eq!(
        config,
        SPIConfig {
            port: 0x4001_0000,
            port_location_tx: 0,
            port_location_rx: 1,
            port_location_clk: 2,
            port_location_cs: 3,
            bit_rate: 1_000_000,
            frame_length: 8,
            dummy_tx_value: 0,
            kind: 0,
            bit_order: 1,
            clock_mode: 0,
            cs_control: 0,
            slave_start_mode: 0,
        }
    );
}

#[test]
fn config_follows_every_argument() {
    let port = usart1();
    let pins = SPIPins { tx: Pin::Pin31, rx: Pin::Pin30, clk: Pin::Pin11, cs: Pin::Pin12 };
    let config = SPIConfig::new(&port, pins, 8_000_000, MODE_3, BitOrder::LSBFirst);
    assert_eq!(
        config,
        SPIConfig {
            port: 0x4001_0400,
            port_location_tx: 31,
            port_location_rx: 30,
            port_location_clk: 11,
            port_location_cs: 12,
            bit_rate: 8_000_000,
            frame_length: 8,
            dummy_tx_value: 0,
            kind: 0,
            bit_order: 0,
            clock_mode: 3,
            cs_control: 0,
            slave_start_mode: 0,
        }
    );
    assert_eq!(SPIConfig::new(&port, pins, 0, MODE_1, BitOrder::MSBFirst).clock_mode, 1);
    assert_eq!(SPIConfig::new(&port, pins, 0, MODE_2, BitOrder::MSBFirst).clock_mode, 2);
    assert_eq!(SPIConfig::new(&port, pins, u32::MAX, MODE_2, BitOrder::MSBFirst).bit_rate, u32::MAX);
}

#[test]
fn new_succeeds_when_the_driver_reports_success() {
    let spi = SPI::new(usart1(), pins(), 1_000_000, MODE_2, BitOrder::LSBFirst, 0).unwrap();
    assert_eq!(spi.base(), 0x4001_0400);
    assert_eq!(
        spi.config(),
        SPIConfig::new(&usart1(), pins(), 1_000_000, MODE_2, BitOrder::LSBFirst)
    );
}

#[test]
fn new_hands_back_the_status_of_a_failed_initialisation() {
    for status in [1u32, 5, 0xf000_0001, u32::MAX] {
        let result = SPI::new(usart0(), pins(), 1_000_000, MODE_0, BitOrder::MSBFirst, status);
        assert_eq!(result.err(), Some(SPIError::Unknown(status)));
    }
}

#[test]
fn status_check_knows_success_by_its_code_alone() {
    assert_eq!(SPIError::check(0), Ok(()));
    assert_eq!(SPIError::check(ECODE_OK), Ok(()));
    assert_eq!(SPIError::check(1), Err(SPIError::Unknown(1)));
    assert_eq!(SPIError::check(5), Err(SPIError::Unknown(5)));
    assert_eq!(SPIError::check(u32::MAX), Err(SPIError::Unknown(u32::MAX)));
}

#[test]
fn transfer_length_at_the_boundary() {
    assert_eq!(MAX_TRANSFER_LENGTH, i32::MAX as usize);
    assert_eq!(transfer_length(0), Ok(0));
    assert_eq!(transfer_length(3), Ok(3));
    assert_eq!(transfer_length(i32::MAX as usize - 1), Ok(i32::MAX - 1));
    assert_eq!(transfer_length(i32::MAX as usize), Ok(i32::MAX));
    assert_eq!(transfer_length(i32::MAX as usize + 1), Err(SPIError::TransferTooBig));
    assert_eq!(transfer_length(u32::MAX as usize), Err(SPIError::TransferTooBig));
    assert_eq!(transfer_length(usize::MAX), Err(SPIError::TransferTooBig));
}

#[test]
fn transfer_asks_for_a_transfer_of_the_buffer() {
    let mut spi = some_spi();
    assert_eq!(spi.transfer(&[]), Ok(Transfer { length: 0 }));
    assert_eq!(spi.transfer(&[1, 2, 3]), Ok(Transfer { length: 3 }));
    assert_eq!(spi.transfer(&[0; 4096]), Ok(Transfer { length: 4096 }));
}

#[test]
fn write_asks_for_a_transmit_of_the_buffer() {
    let mut spi = some_spi();
    assert_eq!(spi.write(&[]), Ok(Transmit { length: 0 }));
    assert_eq!(spi.write(&[1, 2, 3]), Ok(Transmit { length: 3 }));
    assert_eq!(spi.write(&[0; 4096]), Ok(Transmit { length: 4096 }));
}

#[test]
fn complete_turns_the_status_into_the_result() {
    let mut spi = some_spi();
    assert_eq!(spi.complete(0), Ok(()));
    assert_eq!(spi.complete(5), Err(SPIError::Unknown(5)));
    assert_eq!(spi.complete(0xf000_0002), Err(SPIError::Unknown(0xf000_0002)));
}

#[test]
fn transactions_leave_the_spi_as_it_was() {
    let mut spi = some_spi();
    let before = spi.config();
    let _ = spi.transfer(&[1, 2]);
    let _ = spi.complete(7);
    let _ = spi.write(&[3]);
    let _ = spi.complete(0);
    assert_eq!(spi.config(), before);
    assert_eq!(spi.base(), 0x4001_0000);
}

#[test]
fn transfer_calls_the_driver_once() {
    let mut spi = some_spi();
    let mut driver = FakeDriver::answering(0);
    assert_eq!(transfer(&mut spi, &mut driver, &[9, 8, 7, 6]), Ok(()));
    assert_eq!(driver.transfers, vec![4]);
    assert!(driver.transmits.is_empty());
}

#[test]
fn spi_write_reports_what_the_driver_answers() {
    let mut spi = SPI::new(usart0(), pins(), 1_000_000, MODE_0, BitOrder::MSBFirst, 0).unwrap();

    let mut succeeding = FakeDriver::answering(0);
    assert_eq!(write(&mut spi, &mut succeeding, &[0x01, 0x02, 0x03]), Ok(()));
    assert_eq!(succeeding.transmits, vec![3]);
    assert!(succeeding.transfers.is_empty());

    let mut failing = FakeDriver::answering(5);
    assert_eq!(write(&mut spi, &mut failing, &[0x01, 0x02, 0x03]), Err(SPIError::Unknown(5)));
    assert_eq!(failing.transmits, vec![3]);
}

#[test]
fn longest_buffer_is_taken_and_a_longer_one_refused() {
    let buffer = vec![0u8; i32::MAX as usize + 1];
    let longest = &buffer[..i32::MAX as usize];
    let mut spi = some_spi();
    assert_eq!(spi.transfer(longest), Ok(Transfer { length: i32::MAX }));
    assert_eq!(spi.write(longest), Ok(Transmit { length: i32::MAX }));
    assert_eq!(spi.transfer(&buffer), Err(SPIError::TransferTooBig));
    assert_eq!(spi.write(&buffer), Err(SPIError::TransferTooBig));
}

#[test]
fn a_buffer_that_is_too_long_never_reaches_the_driver() {
    let buffer = vec![0u8; i32::MAX as usize + 1];
    let mut spi = some_spi();
    let mut driver = FakeDriver::answering(0);
    assert_eq!(write(&mut spi, &mut driver, &buffer), Err(SPIError::TransferTooBig));
    assert_eq!(transfer(&mut spi, &mut driver, &buffer), Err(SPIError::TransferTooBig));
    assert!(driver.transfers.is_empty());
    assert!(driver.transmits.is_empty());
}
