use my_rust_pi_app::fault::HardwareFault;
use my_rust_pi_app::gpio::{Gpio, MockGpio};
use my_rust_pi_app::i2c::{I2c, MockI2c};
use my_rust_pi_app::spi::{MockSpi, Spi};

#[test]
fn gpio_untouched_pins_report_nothing() {
    let gpio = MockGpio::new();
    for pin in [0u8, 1, 18, 255] {
        assert_eq!(gpio.get_write_count(pin), 0);
        assert_eq!(gpio.get_read_count(pin), 0);
        assert_eq!(gpio.get_pin_state(pin), None);
    }
}

#[test]
fn gpio_failure_short_circuits_before_instrumentation() {
    let mut gpio = MockGpio::new();
    gpio.write(7, true).unwrap();
    gpio.set_pin_failure(7);

    assert_eq!(gpio.write(7, false), Err(HardwareFault::GpioPin { pin: 7 }));
    assert_eq!(gpio.read(7), Err(HardwareFault::GpioPin { pin: 7 }));

    // The failing attempts were not counted and did not move the state.
    assert_eq!(gpio.get_write_count(7), 1);
    assert_eq!(gpio.get_read_count(7), 0);
    assert_eq!(gpio.get_pin_state(7), Some(true));
}

#[test]
fn gpio_exhausted_script_falls_back_to_written_state() {
    let mut gpio = MockGpio::new();
    gpio.write(4, true).unwrap();
    gpio.set_scripted_responses(4, vec![false]);

    assert_eq!(gpio.read(4).unwrap(), false); // consumes the one response
    assert_eq!(gpio.read(4).unwrap(), true); // falls back to the written level
    assert_eq!(gpio.read(4).unwrap(), true); // and stays there
}

#[test]
fn gpio_exhausted_script_on_unwritten_pin_reads_low() {
    let mut gpio = MockGpio::new();
    gpio.set_scripted_responses(9, vec![true]);
    assert_eq!(gpio.read(9).unwrap(), true);
    assert_eq!(gpio.read(9).unwrap(), false);
}

#[test]
fn gpio_setting_script_rewinds_cursor() {
    let mut gpio = MockGpio::new();
    gpio.set_scripted_responses(2, vec![true, true]);
    assert_eq!(gpio.read(2).unwrap(), true);
    gpio.set_scripted_responses(2, vec![false, true]);
    assert_eq!(gpio.read(2).unwrap(), false);
    assert_eq!(gpio.read(2).unwrap(), true);
}

#[test]
fn gpio_reset_restores_initial_state() {
    let mut gpio = MockGpio::new();
    gpio.write(1, true).unwrap();
    gpio.set_scripted_responses(1, vec![false]);
    gpio.set_pin_failure(2);
    gpio.reset();

    assert_eq!(gpio.get_write_count(1), 0);
    assert_eq!(gpio.get_read_count(1), 0);
    assert_eq!(gpio.get_pin_state(1), None);
    // The failure set is cleared too.
    assert!(gpio.write(2, true).is_ok());
    // And the script is gone: the read returns the freshly written level.
    assert_eq!(gpio.read(1).unwrap(), false);
}

#[test]
fn gpio_end_to_end_write_then_read() {
    let mut gpio = MockGpio::new();
    gpio.write(18, true).unwrap();
    assert_eq!(gpio.read(18).unwrap(), true);
    assert_eq!(gpio.get_write_count(18), 1);
    assert_eq!(gpio.get_read_count(18), 1);
}

#[test]
fn gpio_default_is_fresh() {
    let gpio = MockGpio::default();
    assert_eq!(gpio.get_write_count(0), 0);
    assert_eq!(gpio.get_pin_state(0), None);
}

#[test]
fn i2c_failure_leaves_log_and_buffer_alone() {
    let mut i2c = MockI2c::new();
    i2c.write(0x20, &[0x01]).unwrap();
    i2c.set_address_failure(0x20);

    assert_eq!(i2c.write(0x20, &[0x02]), Err(HardwareFault::I2cAddress { address: 0x20 }));
    assert_eq!(i2c.get_write_log().len(), 1);

    let mut buffer = vec![0x55u8; 3];
    assert_eq!(
        i2c.read(0x20, &mut buffer),
        Err(HardwareFault::I2cAddress { address: 0x20 })
    );
    assert_eq!(buffer, [0x55, 0x55, 0x55]);
}

#[test]
fn i2c_read_without_response_zero_fills_whole_buffer() {
    let mut i2c = MockI2c::new();
    let mut buffer = vec![0x11u8, 0x22, 0x33, 0x44];
    let count = i2c.read(0x30, &mut buffer).unwrap();
    assert_eq!(count, 4);
    assert_eq!(buffer, [0, 0, 0, 0]);
}

#[test]
fn i2c_short_response_copies_and_leaves_tail() {
    let mut i2c = MockI2c::new();
    i2c.set_read_response(0x48, vec![0xAA, 0xBB, 0xCC]);
    let mut buffer = vec![0x99u8; 5];
    let count = i2c.read(0x48, &mut buffer).unwrap();
    assert_eq!(count, 3);
    assert_eq!(buffer, [0xAA, 0xBB, 0xCC, 0x99, 0x99]);
}

#[test]
fn i2c_long_response_is_truncated_to_buffer() {
    let mut i2c = MockI2c::new();
    i2c.set_read_response(0x48, vec![1, 2, 3, 4, 5]);
    let mut buffer = vec![0u8; 2];
    let count = i2c.read(0x48, &mut buffer).unwrap();
    assert_eq!(count, 2);
    assert_eq!(buffer, [1, 2]);
}

#[test]
fn i2c_last_configured_response_wins() {
    let mut i2c = MockI2c::new();
    i2c.set_read_response(0x48, vec![0x01]);
    i2c.set_read_response(0x48, vec![0x02]);
    let mut buffer = vec![0u8; 1];
    assert_eq!(i2c.read(0x48, &mut buffer).unwrap(), 1);
    assert_eq!(buffer, [0x02]);
}

#[test]
fn i2c_end_to_end_scripted_read() {
    let mut i2c = MockI2c::new();
    i2c.set_read_response(0x48, vec![0xAA, 0xBB, 0xCC]);
    let mut buffer = vec![0u8; 5];
    let count = i2c.read(0x48, &mut buffer).unwrap();
    assert_eq!(count, 3);
    assert_eq!(&buffer[..3], &[0xAA, 0xBB, 0xCC]);
}

#[test]
fn spi_failing_transfer_is_not_logged() {
    let mut spi = MockSpi::new();
    spi.set_failure(true);
    let mut data = vec![0x01];
    assert_eq!(spi.transfer(&mut data), Err(HardwareFault::SpiBus));
    assert_eq!(data, [0x01]);
    assert_eq!(spi.get_transfer_log().len(), 0);
}

#[test]
fn spi_exhausted_queue_echoes_input() {
    let mut spi = MockSpi::new();
    spi.add_response(vec![0xAA]);
    let mut first = vec![0x01];
    spi.transfer(&mut first).unwrap();
    assert_eq!(first, [0xAA]);

    let mut second = vec![0x02, 0x03];
    spi.transfer(&mut second).unwrap();
    assert_eq!(second, [0x02, 0x03]);
    assert_eq!(spi.get_transfer_log().len(), 2);
}

#[test]
fn spi_short_response_overwrites_only_head() {
    let mut spi = MockSpi::new();
    spi.add_response(vec![0xFF]);
    let mut data = vec![0x01, 0x02, 0x03];
    spi.transfer(&mut data).unwrap();
    assert_eq!(data, [0xFF, 0x02, 0x03]);
}

#[test]
fn spi_failure_toggle_restores_transfers() {
    let mut spi = MockSpi::new();
    spi.set_failure(true);
    spi.set_failure(false);
    let mut data = vec![0x01];
    assert!(spi.transfer(&mut data).is_ok());
    assert_eq!(spi.get_transfer_log().len(), 1);
}

#[test]
fn spi_end_to_end_scripted_transfer() {
    let mut spi = MockSpi::new();
    spi.add_response(vec![0xFF, 0xEE]);
    let mut buffer = vec![0x01, 0x02];
    spi.transfer(&mut buffer).unwrap();
    assert_eq!(buffer, [0xFF, 0xEE]);
    assert_eq!(spi.get_transfer_log().len(), 1);
    assert_eq!(spi.get_transfer_log()[0], vec![0x01, 0x02]);
}
