use embedded_hal_mock::eh1::delay::NoopDelay;
use embedded_hal_mock::eh1::MockError;
use embedded_hal_mock::eh1::digital::{
    Mock as PinMock, State as PinState, Transaction as PinTransaction,
};
use embedded_hal_mock::eh1::spi::{Mock as SpiMock, Transaction as SpiTransaction};

use hcs_12ss59t::{Error, FontTable, HCS12SS59T};

#[test]
fn test_init() {
    let spi_expectations = [
        SpiTransaction::transaction_start(),
        SpiTransaction::write(0x6C), // num digit set 12
        SpiTransaction::transaction_end(),
        SpiTransaction::transaction_start(),
        SpiTransaction::write(0x57), // display duty set 7
        SpiTransaction::transaction_end(),
        SpiTransaction::transaction_start(),
        SpiTransaction::write(0x70), // light set normal
        SpiTransaction::transaction_end(),
        SpiTransaction::transaction_start(),
        SpiTransaction::write(0x55), // display duty set 5
        SpiTransaction::transaction_end(),
    ];
    let spi = SpiMock::new(&spi_expectations);
    let n_reset_expectations = [
        PinTransaction::set(PinState::Low),
        PinTransaction::set(PinState::High),
    ];
    let n_reset = PinMock::new(&n_reset_expectations);

    let cs_expectations = [
        PinTransaction::set(PinState::Low), // Command one
        PinTransaction::set(PinState::High),
        PinTransaction::set(PinState::Low), // Command two
        PinTransaction::set(PinState::High),
        PinTransaction::set(PinState::Low), // Command three
        PinTransaction::set(PinState::High),
        PinTransaction::set(PinState::Low), // Command four
        PinTransaction::set(PinState::High),
    ];
    let cs = PinMock::new(&cs_expectations);

    let vdon_expectations = [
        PinTransaction::set(PinState::Low),
        PinTransaction::set(PinState::Low),
    ];
    let n_vdon = PinMock::new(&vdon_expectations);

    let delay = NoopDelay::new();

    let mut my_vfd = HCS12SS59T::new(spi, n_reset, delay, Some(n_vdon), cs);

    my_vfd.init().unwrap();
    my_vfd.brightness(5).unwrap();

    let (mut spi, mut rst, _delay, vdon, mut cs) = my_vfd.destroy();

    spi.done();
    rst.done();
    if let Some(mut vdon) = vdon {
        vdon.done();
    }
    cs.done();
}

#[test]
fn brightness_zero_issues_no_bus_write() {
    let spi = SpiMock::<u8>::new(&[]);
    let n_reset = PinMock::new(&[]);
    let cs = PinMock::new(&[]);
    // Brightness 0 only drives the supply-enable line high (supply off).
    let n_vdon = PinMock::new(&[PinTransaction::set(PinState::High)]);
    let mut vfd = HCS12SS59T::new(spi, n_reset, NoopDelay::new(), Some(n_vdon), cs);

    vfd.brightness(0).unwrap();

    let (mut spi, mut rst, _delay, vdon, mut cs) = vfd.destroy();
    spi.done();
    rst.done();
    vdon.unwrap().done();
    cs.done();
}

#[test]
fn brightness_sixteen_fails_without_any_transaction() {
    let spi = SpiMock::<u8>::new(&[]);
    let n_reset = PinMock::new(&[]);
    let cs = PinMock::new(&[]);
    let n_vdon = PinMock::new(&[]);
    let mut vfd = HCS12SS59T::new(spi, n_reset, NoopDelay::new(), Some(n_vdon), cs);

    assert_eq!(vfd.brightness(16), Err(Error::InvalidInput));

    let (mut spi, mut rst, _delay, vdon, mut cs) = vfd.destroy();
    spi.done();
    rst.done();
    vdon.unwrap().done();
    cs.done();
}

#[test]
fn cgram_write_outside_valid_addresses_fails_before_chip_select() {
    let spi = SpiMock::<u8>::new(&[]);
    let n_reset = PinMock::new(&[]);
    let cs = PinMock::new(&[]);
    let n_vdon = PinMock::new(&[]);
    let mut vfd = HCS12SS59T::new(spi, n_reset, NoopDelay::new(), Some(n_vdon), cs);

    assert_eq!(
        vfd.set_cgram_pattern(FontTable::CharA, [0xAA, 0x55]),
        Err(Error::InvalidInput)
    );

    let (mut spi, mut rst, _delay, vdon, mut cs) = vfd.destroy();
    spi.done();
    rst.done();
    vdon.unwrap().done();
    cs.done();
}

#[test]
fn cgram_write_transmits_address_and_pattern() {
    let spi_expectations = [
        SpiTransaction::transaction_start(),
        SpiTransaction::write(0x25),
        SpiTransaction::transaction_end(),
        SpiTransaction::transaction_start(),
        SpiTransaction::write(0xAA),
        SpiTransaction::transaction_end(),
        SpiTransaction::transaction_start(),
        SpiTransaction::write(0x55),
        SpiTransaction::transaction_end(),
    ];
    let spi = SpiMock::new(&spi_expectations);
    let n_reset = PinMock::new(&[]);
    let cs = PinMock::new(&[
        PinTransaction::set(PinState::Low),
        PinTransaction::set(PinState::High),
    ]);
    let n_vdon = PinMock::new(&[]);
    let mut vfd = HCS12SS59T::new(spi, n_reset, NoopDelay::new(), Some(n_vdon), cs);

    vfd.set_cgram_pattern(FontTable::Ram5, [0xAA, 0x55]).unwrap();

    let (mut spi, mut rst, _delay, vdon, mut cs) = vfd.destroy();
    spi.done();
    rst.done();
    vdon.unwrap().done();
    cs.done();
}

#[test]
fn set_char_masks_the_address_and_sends_the_glyph() {
    let spi_expectations = [
        SpiTransaction::transaction_start(),
        SpiTransaction::write(0x13),
        SpiTransaction::transaction_end(),
        SpiTransaction::transaction_start(),
        SpiTransaction::write(0x11),
        SpiTransaction::transaction_end(),
    ];
    let spi = SpiMock::new(&spi_expectations);
    let n_reset = PinMock::new(&[]);
    let cs = PinMock::new(&[
        PinTransaction::set(PinState::Low),
        PinTransaction::set(PinState::High),
    ]);
    let mut vfd =
        HCS12SS59T::new(spi, n_reset, NoopDelay::new(), None::<PinMock>, cs);

    // Address 0xF3 wraps to digit-RAM address 3.
    vfd.set_char(0xF3, FontTable::CharA).unwrap();

    let (mut spi, mut rst, _delay, _vdon, mut cs) = vfd.destroy();
    spi.done();
    rst.done();
    cs.done();
}

#[test]
fn display_str_sends_one_bulk_frame_right_aligned() {
    let mut spi_expectations = vec![
        SpiTransaction::transaction_start(),
        SpiTransaction::write(0x10), // digit-RAM write at address 0
        SpiTransaction::transaction_end(),
    ];
    for _ in 0..10 {
        spi_expectations.push(SpiTransaction::transaction_start());
        spi_expectations.push(SpiTransaction::write(0x30)); // blank
        spi_expectations.push(SpiTransaction::transaction_end());
    }
    for b in [0x12, 0x11] {
        // `B`, then `A` in the highest-address digit
        spi_expectations.push(SpiTransaction::transaction_start());
        spi_expectations.push(SpiTransaction::write(b));
        spi_expectations.push(SpiTransaction::transaction_end());
    }
    let spi = SpiMock::new(&spi_expectations);
    let n_reset = PinMock::new(&[]);
    let cs = PinMock::new(&[
        PinTransaction::set(PinState::Low),
        PinTransaction::set(PinState::High),
    ]);
    let mut vfd =
        HCS12SS59T::new(spi, n_reset, NoopDelay::new(), None::<PinMock>, cs);

    vfd.display_str("AB").unwrap();

    let (mut spi, mut rst, _delay, _vdon, mut cs) = vfd.destroy();
    spi.done();
    rst.done();
    cs.done();
}

#[test]
fn write_buf_frames_arbitrary_bytes() {
    let spi_expectations = [
        SpiTransaction::transaction_start(),
        SpiTransaction::write(0xDE),
        SpiTransaction::transaction_end(),
        SpiTransaction::transaction_start(),
        SpiTransaction::write(0xAD),
        SpiTransaction::transaction_end(),
    ];
    let spi = SpiMock::new(&spi_expectations);
    let n_reset = PinMock::new(&[]);
    let cs = PinMock::new(&[
        PinTransaction::set(PinState::Low),
        PinTransaction::set(PinState::High),
    ]);
    let mut vfd =
        HCS12SS59T::new(spi, n_reset, NoopDelay::new(), None::<PinMock>, cs);

    vfd.write_buf(&[0xDE, 0xAD]).unwrap();

    let (mut spi, mut rst, _delay, _vdon, mut cs) = vfd.destroy();
    spi.done();
    rst.done();
    cs.done();
}

#[test]
fn supply_operations_are_no_ops_without_a_supply_line() {
    let spi = SpiMock::<u8>::new(&[]);
    let n_reset = PinMock::new(&[]);
    let cs = PinMock::new(&[]);
    let mut vfd =
        HCS12SS59T::new(spi, n_reset, NoopDelay::new(), None::<PinMock>, cs);

    vfd.vd_on().unwrap();
    vfd.vd_off().unwrap();
    vfd.brightness(0).unwrap();

    let (mut spi, mut rst, _delay, _vdon, mut cs) = vfd.destroy();
    spi.done();
    rst.done();
    cs.done();
}

#[test]
fn supply_line_follows_vd_operations() {
    let spi = SpiMock::<u8>::new(&[]);
    let n_reset = PinMock::new(&[]);
    let cs = PinMock::new(&[]);
    let n_vdon = PinMock::new(&[
        PinTransaction::set(PinState::Low),  // vd_on: active low
        PinTransaction::set(PinState::High), // vd_off
    ]);
    let mut vfd = HCS12SS59T::new(spi, n_reset, NoopDelay::new(), Some(n_vdon), cs);

    vfd.vd_on().unwrap();
    vfd.vd_off().unwrap();

    let (mut spi, mut rst, _delay, vdon, mut cs) = vfd.destroy();
    spi.done();
    rst.done();
    vdon.unwrap().done();
    cs.done();
}

#[test]
fn init_stops_at_the_first_failed_pin_operation() {
    let spi = SpiMock::<u8>::new(&[]);
    // The very first step of initialization, reset low, fails: nothing else
    // may be attempted, and the failure surfaces as a GPIO error.
    let n_reset = PinMock::new(&[PinTransaction::set(PinState::Low)
        .with_error(MockError::Io(std::io::ErrorKind::NotConnected))]);
    let cs = PinMock::new(&[]);
    let n_vdon = PinMock::new(&[]);
    let mut vfd = HCS12SS59T::new(spi, n_reset, NoopDelay::new(), Some(n_vdon), cs);

    assert_eq!(vfd.init(), Err(Error::Gpio));

    let (mut spi, mut rst, _delay, vdon, mut cs) = vfd.destroy();
    spi.done();
    rst.done();
    vdon.unwrap().done();
    cs.done();
}

#[test]
fn errors_describe_themselves() {
    assert_eq!(Error::Spi.describe(), "SPI error");
    assert_eq!(Error::Gpio.describe(), "GPIO error");
    assert_eq!(Error::InvalidInput.describe(), "invalid input parameter");
}
