use esp_hal_common::clock::{Peripheral, PeripheralClockControl};
use esp_hal_common::otg_fs::{
    esp32s3_register_write, Chip, EnableStep, InputSignal, Level, RegisterWrite, UsbBlockState, UsbDm, UsbDp, UsbSel, AHB_FREQUENCY_HZ,
    ENDPOINT_COUNT, FIFO_DEPTH_WORDS, HIGH_SPEED, REGISTER_BASE, USB, USB0,
};

struct SelLine;
impl UsbSel for SelLine {}

struct DpLine;
impl UsbDp for DpLine {}

struct DmLine;
impl UsbDm for DmLine {}

fn unconnected(otg_conf: u32) -> UsbBlockState {
    UsbBlockState { otg_conf, rtc_usb_conf: 0, iddig: None, bvalid: None, vbusvalid: None, avalid: None }
}

#[test]
fn clock_enable_sets_bit_and_releases_reset() {
    let mut clocks = PeripheralClockControl::new();
    assert!(!clocks.is_enabled(Peripheral::Usb));
    clocks.enable(Peripheral::Usb);
    assert_eq!(clocks.clk_en, 1 << 23);
    assert_eq!(clocks.rst_en, 0xff7f_ffff);
    assert!(clocks.is_enabled(Peripheral::Usb));
    assert!(!clocks.is_enabled(Peripheral::I2s1));
}

#[test]
fn clock_enable_twice_is_a_no_op() {
    let mut clocks = PeripheralClockControl::new();
    clocks.enable(Peripheral::I2s0);
    let (c, r) = (clocks.clk_en, clocks.rst_en);
    clocks.enable(Peripheral::I2s0);
    assert_eq!((clocks.clk_en, clocks.rst_en), (c, r));
    assert_eq!(c, 1 << 4);
}

#[test]
fn clock_enable_keeps_other_blocks() {
    let mut clocks = PeripheralClockControl::new();
    clocks.enable(Peripheral::I2s1);
    clocks.enable(Peripheral::Usb);
    assert!(clocks.is_enabled(Peripheral::I2s1));
    assert!(clocks.is_enabled(Peripheral::Usb));
    assert!(!clocks.is_enabled(Peripheral::I2s0));
    assert_eq!(clocks.clk_en, (1 << 21) | (1 << 23));
}

#[test]
fn enable_steps_come_in_order() {
    let steps = esp_hal_common::otg_fs::enable_steps(Chip::Esp32s2);
    assert_eq!(
        steps,
        vec![
            EnableStep::ConfigurePhy,
            EnableStep::Connect(InputSignal::UsbOtgIddig, Level::High),
            EnableStep::Connect(InputSignal::UsbSrpBvalid, Level::High),
            EnableStep::Connect(InputSignal::UsbOtgVbusvalid, Level::High),
            EnableStep::Connect(InputSignal::UsbOtgAvalid, Level::Low),
            EnableStep::OverridePulls,
        ]
    );
}

#[test]
fn new_binding_brings_block_up_in_device_mode() {
    let mut clocks = PeripheralClockControl::new();
    let usb = USB::new(USB0::new(Chip::Esp32s2, unconnected(0)), SelLine, DpLine, DmLine, &mut clocks);
    assert!(clocks.is_enabled(Peripheral::Usb));
    let s = usb.block_state();
    assert_eq!(s.otg_conf, 0x801c_3000);
    assert_eq!(s.iddig, Some(Level::High));
    assert_eq!(s.bvalid, Some(Level::High));
    assert_eq!(s.vbusvalid, Some(Level::High));
    assert_eq!(s.avalid, Some(Level::Low));
}

#[test]
fn new_binding_clears_the_pulls_and_transceiver_select() {
    let mut clocks = PeripheralClockControl::new();
    let usb = USB::new(USB0::new(Chip::Esp32s2, unconnected(0xffff_ffff)), SelLine, DpLine, DmLine, &mut clocks);
    assert_eq!(usb.block_state().otg_conf, 0xfffe_3ffb);
}

#[test]
fn two_bindings_enable_the_clock_once() {
    let mut clocks = PeripheralClockControl::new();
    let _first = USB::new(USB0::new(Chip::Esp32s2, unconnected(0)), SelLine, DpLine, DmLine, &mut clocks);
    let (c, r) = (clocks.clk_en, clocks.rst_en);
    let _second = USB::new(USB0::new(Chip::Esp32s2, unconnected(0)), SelLine, DpLine, DmLine, &mut clocks);
    assert_eq!((clocks.clk_en, clocks.rst_en), (c, r));
}

#[test]
fn single_step_touches_only_its_input() {
    let mut clocks = PeripheralClockControl::new();
    clocks.enable(Peripheral::Usb);
    let mut usb0 = USB0::new(Chip::Esp32s2, unconnected(0x1234));
    usb0.apply(EnableStep::Connect(InputSignal::UsbOtgAvalid, Level::Low), &clocks);
    assert_eq!(usb0.state(), UsbBlockState { avalid: Some(Level::Low), ..unconnected(0x1234) });
}

#[test]
fn capability_constants() {
    let mut clocks = PeripheralClockControl::new();
    let usb = USB::new(USB0::new(Chip::Esp32s2, unconnected(0)), SelLine, DpLine, DmLine, &mut clocks);
    assert_eq!(usb.ahb_frequency_hz(), 80_000_000);
    assert_eq!(AHB_FREQUENCY_HZ, 80_000_000);
    assert_eq!(REGISTER_BASE, 0x6008_0000);
    assert!(!HIGH_SPEED);
    assert_eq!(FIFO_DEPTH_WORDS, 256);
    assert_eq!(ENDPOINT_COUNT, 5);
}

#[test]
fn esp32s3_selects_the_otg_transceiver_after_the_clocks() {
    let steps = esp_hal_common::otg_fs::enable_steps(Chip::Esp32s3);
    assert_eq!(steps.len(), 7);
    assert_eq!(steps[0], EnableStep::ConfigurePhy);
    assert_eq!(steps[1], EnableStep::SelectOtgPhy);
    assert_eq!(steps[6], EnableStep::OverridePulls);
}

#[test]
fn esp32s3_binding_writes_the_rtc_register() {
    let mut clocks = PeripheralClockControl::new();
    let usb = USB::new(USB0::new(Chip::Esp32s3, unconnected(0)), SelLine, DpLine, DmLine, &mut clocks);
    let s = usb.block_state();
    assert_eq!(s.rtc_usb_conf, (1 << 19) | (1 << 20));
    assert_eq!(s.otg_conf, 0x801c_3000);
    assert_eq!(s.avalid, Some(Level::Low));
}

#[test]
fn esp32s2_binding_leaves_the_rtc_register() {
    let mut clocks = PeripheralClockControl::new();
    let mut state = unconnected(0);
    state.rtc_usb_conf = 0x55;
    let usb = USB::new(USB0::new(Chip::Esp32s2, state), SelLine, DpLine, DmLine, &mut clocks);
    assert_eq!(usb.block_state().rtc_usb_conf, 0x55);
}

#[test]
fn register_writes_of_the_steps() {
    assert_eq!(
        esp32s3_register_write(EnableStep::ConfigurePhy),
        RegisterWrite { address: 0x6003_9000, set: 0x801c_0000, clear: 0x4 }
    );
    assert_eq!(
        esp32s3_register_write(EnableStep::SelectOtgPhy),
        RegisterWrite { address: 0x6000_8120, set: 0x0018_0000, clear: 0 }
    );
    assert_eq!(
        esp32s3_register_write(EnableStep::Connect(InputSignal::UsbOtgIddig, Level::High)),
        RegisterWrite { address: 0x6000_4154 + 4 * 58, set: 0xb8, clear: 0xffff_ffff }
    );
    assert_eq!(
        esp32s3_register_write(EnableStep::Connect(InputSignal::UsbOtgAvalid, Level::Low)),
        RegisterWrite { address: 0x6000_4154 + 4 * 59, set: 0xbc, clear: 0xffff_ffff }
    );
    assert_eq!(
        esp32s3_register_write(EnableStep::OverridePulls),
        RegisterWrite { address: 0x6003_9000, set: 0x3000, clear: 0x1_c000 }
    );
}
