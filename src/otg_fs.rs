//! USB OTG full-speed controller: the binding of the controller block to its
//! role tokens, and the sequence that brings the block up in device mode.

use vstd::prelude::*;
use crate::clock::{Peripheral, PeripheralClockControl};

verus! {

/// Marker for a line wired as the USB select line.
pub trait UsbSel {}

/// Marker for a line wired as the USB data-plus line.
pub trait UsbDp {}

/// Marker for a line wired as the USB data-minus line.
pub trait UsbDm {}

/// Base address of the controller's register block.
pub const REGISTER_BASE: usize = 0x6008_0000;

/// The controller is full-speed only.
pub const HIGH_SPEED: bool = false;

/// Depth of the controller's data FIFO, in 32-bit words.
pub const FIFO_DEPTH_WORDS: usize = 256;

/// Number of bidirectional endpoints of the controller.
pub const ENDPOINT_COUNT: usize = 5;

/// Frequency of the bus that clocks the controller, in hertz.
pub const AHB_FREQUENCY_HZ: u32 = 80_000_000;

/// Fields of the wrapper's configuration register.
pub const PHY_SEL: u32 = 1 << 2;
pub const PAD_PULL_OVERRIDE: u32 = 1 << 12;
pub const DP_PULLUP: u32 = 1 << 13;
pub const DP_PULLDOWN: u32 = 1 << 14;
pub const DM_PULLUP: u32 = 1 << 15;
pub const DM_PULLDOWN: u32 = 1 << 16;
pub const USB_PAD_ENABLE: u32 = 1 << 18;
pub const AHB_CLK_FORCE_ON: u32 = 1 << 19;
pub const PHY_CLK_FORCE_ON: u32 = 1 << 20;
pub const CLK_EN: u32 = 1 << 31;

/// Fields of the RTC controller's USB configuration register.
pub const SW_USB_PHY_SEL: u32 = 1 << 19;
pub const SW_HW_USB_PHY_SEL: u32 = 1 << 20;

/// Addresses, on the ESP32-S3, of the registers that bring-up writes.
pub const USB_WRAP_OTG_CONF: usize = 0x6003_9000;
pub const RTC_CNTL_USB_CONF: usize = 0x6000_8120;
/// Input-select register of the signal matrix for signal 0; signal `k`
/// has its register `4 * k` bytes further.
pub const GPIO_FUNC_IN_SEL_CFG: usize = 0x6000_4154;
/// In an input-select register: route the signal through the matrix.
pub const SIG_IN_SEL: u32 = 1 << 7;
/// Matrix inputs that hold a constant high or low level.
pub const CONST_ONE_INPUT: u32 = 0x38;
pub const CONST_ZERO_INPUT: u32 = 0x3c;

/// The chip variant that carries the controller.
#[derive(Clone, Copy, Debug, PartialEq, Eq, Structural)]
pub enum Chip {
    Esp32s2,
    Esp32s3,
}

/// A constant logic level.
#[derive(Clone, Copy, Debug, PartialEq, Eq, Structural)]
pub enum Level {
    Low,
    High,
}

/// The controller's control inputs that the signal matrix can drive.
#[derive(Clone, Copy, Debug, PartialEq, Eq, Structural)]
pub enum InputSignal {
    /// Identification line: high for the mini-B side of the connector.
    UsbOtgIddig,
    /// B-session valid: high forces device mode.
    UsbSrpBvalid,
    /// Bus voltage valid.
    UsbOtgVbusvalid,
    /// A-session valid.
    UsbOtgAvalid,
}

/// The state of the controller block that bring-up touches: the wrapper's
/// configuration register, the RTC controller's USB configuration register,
/// and the level each control input is tied to (`None` while it is not tied
/// to a constant).
#[derive(Clone, Copy, Debug, PartialEq, Eq)]
pub struct UsbBlockState {
    pub otg_conf: u32,
    pub rtc_usb_conf: u32,
    pub iddig: Option<Level>,
    pub bvalid: Option<Level>,
    pub vbusvalid: Option<Level>,
    pub avalid: Option<Level>,
}

/// One step of the bring-up sequence.
#[derive(Clone, Copy, Debug, PartialEq, Eq)]
pub enum EnableStep {
    /// Select the internal transceiver, enable the pads and force the
    /// controller's clocks on.
    ConfigurePhy,
    /// Have the RTC controller hand the transceiver to the OTG controller
    /// (ESP32-S3 only).
    SelectOtgPhy,
    /// Tie a control input to a constant level.
    Connect(InputSignal, Level),
    /// Override the pad pulls: data-plus pulled up, every other pull off.
    OverridePulls,
}

/// The configuration register after the transceiver step: pads enabled,
/// internal transceiver selected, clocks forced on, other fields kept.
pub open spec fn conf_after_phy(c: u32) -> u32 {
    (c | (USB_PAD_ENABLE | CLK_EN | AHB_CLK_FORCE_ON | PHY_CLK_FORCE_ON)) & !PHY_SEL
}

/// The RTC controller's USB register once software selects the OTG
/// controller's transceiver.
pub open spec fn rtc_after_phy_select(c: u32) -> u32 {
    c | (SW_HW_USB_PHY_SEL | SW_USB_PHY_SEL)
}

/// The configuration register after the pull override: data-plus pull-up
/// on, the other three pulls off, other fields kept.
pub open spec fn conf_after_pulls(c: u32) -> u32 {
    (c | (PAD_PULL_OVERRIDE | DP_PULLUP)) & !(DP_PULLDOWN | DM_PULLUP | DM_PULLDOWN)
}

/// The effect of one step on the block.
pub open spec fn apply_step(s: UsbBlockState, step: EnableStep) -> UsbBlockState {
    match step {
        EnableStep::ConfigurePhy => UsbBlockState { otg_conf: conf_after_phy(s.otg_conf), ..s },
        EnableStep::SelectOtgPhy => UsbBlockState {
            rtc_usb_conf: rtc_after_phy_select(s.rtc_usb_conf),
            ..s
        },
        EnableStep::Connect(sig, lvl) => match sig {
            InputSignal::UsbOtgIddig => UsbBlockState { iddig: Some(lvl), ..s },
            InputSignal::UsbSrpBvalid => UsbBlockState { bvalid: Some(lvl), ..s },
            InputSignal::UsbOtgVbusvalid => UsbBlockState { vbusvalid: Some(lvl), ..s },
            InputSignal::UsbOtgAvalid => UsbBlockState { avalid: Some(lvl), ..s },
        },
        EnableStep::OverridePulls => UsbBlockState { otg_conf: conf_after_pulls(s.otg_conf), ..s },
    }
}

/// The effect of a sequence of steps, applied first to last.
pub open spec fn run_steps(s: UsbBlockState, steps: Seq<EnableStep>) -> UsbBlockState
    decreases steps.len(),
{
    if steps.len() == 0 {
        s
    } else {
        apply_step(run_steps(s, steps.drop_last()), steps.last())
    }
}

/// The bring-up sequence of `chip`, in the order the hardware needs it: the
/// transceiver and clocks first, then the four control inputs, and the pull
/// override last, so that the bus does not glitch.
pub open spec fn enable_plan(chip: Chip) -> Seq<EnableStep> {
    let inputs = seq![
        EnableStep::Connect(InputSignal::UsbOtgIddig, Level::High),
        EnableStep::Connect(InputSignal::UsbSrpBvalid, Level::High),
        EnableStep::Connect(InputSignal::UsbOtgVbusvalid, Level::High),
        EnableStep::Connect(InputSignal::UsbOtgAvalid, Level::Low),
        EnableStep::OverridePulls,
    ];
    match chip {
        Chip::Esp32s2 => seq![EnableStep::ConfigurePhy] + inputs,
        Chip::Esp32s3 => seq![EnableStep::ConfigurePhy, EnableStep::SelectOtgPhy] + inputs,
    }
}

/// The block of `chip` after bring-up, stated field by field.
pub open spec fn device_mode_state(chip: Chip, s: UsbBlockState) -> UsbBlockState {
    UsbBlockState {
        otg_conf: conf_after_pulls(conf_after_phy(s.otg_conf)),
        rtc_usb_conf: match chip {
            Chip::Esp32s2 => s.rtc_usb_conf,
            Chip::Esp32s3 => rtc_after_phy_select(s.rtc_usb_conf),
        },
        iddig: Some(Level::High),
        bvalid: Some(Level::High),
        vbusvalid: Some(Level::High),
        avalid: Some(Level::Low),
    }
}

/// Returns the bring-up sequence of `chip`.
pub fn enable_steps(chip: Chip) -> (r: Vec<EnableStep>)
    ensures
        r@ == enable_plan(chip),
{
    let mut r = vec![EnableStep::ConfigurePhy];
    if chip == Chip::Esp32s3 {
        r.push(EnableStep::SelectOtgPhy);
    }
    r.push(EnableStep::Connect(InputSignal::UsbOtgIddig, Level::High));
    r.push(EnableStep::Connect(InputSignal::UsbSrpBvalid, Level::High));
    r.push(EnableStep::Connect(InputSignal::UsbOtgVbusvalid, Level::High));
    r.push(EnableStep::Connect(InputSignal::UsbOtgAvalid, Level::Low));
    r.push(EnableStep::OverridePulls);
    assert(r@ =~= enable_plan(chip));
    r
}

/// Running the bring-up sequence of `chip` leaves the block in device mode.
pub proof fn lemma_plan_reaches_device_mode(chip: Chip, s: UsbBlockState)
    ensures
        run_steps(s, enable_plan(chip)) == device_mode_state(chip, s),
{
    let p = enable_plan(chip);
    reveal_with_fuel(run_steps, 8);
    let k = p.len();
    assert(p.drop_last() =~= p.take(k - 1));
    assert(p.take(k - 1).drop_last() =~= p.take(k - 2));
    assert(p.take(k - 2).drop_last() =~= p.take(k - 3));
    assert(p.take(k - 3).drop_last() =~= p.take(k - 4));
    assert(p.take(k - 4).drop_last() =~= p.take(k - 5));
    assert(p.take(k - 5).drop_last() =~= p.take(k - 6));
    if k == 7 {
        assert(p.take(1).drop_last() =~= p.take(0));
    }
}

/// A read-modify-write of one 32-bit register: the register at `address`
/// becomes `(old & !clear) | set`.
#[derive(Clone, Copy, Debug, PartialEq, Eq, Structural)]
pub struct RegisterWrite {
    pub address: usize,
    pub set: u32,
    pub clear: u32,
}

/// Index of a control input in the ESP32-S3 signal matrix.
pub open spec fn signal_index(sig: InputSignal) -> usize {
    match sig {
        InputSignal::UsbOtgIddig => 58,
        InputSignal::UsbOtgAvalid => 59,
        InputSignal::UsbSrpBvalid => 60,
        InputSignal::UsbOtgVbusvalid => 61,
    }
}

/// The register write that carries out `step` on the ESP32-S3.
pub open spec fn step_write(step: EnableStep) -> RegisterWrite {
    match step {
        EnableStep::ConfigurePhy => RegisterWrite {
            address: USB_WRAP_OTG_CONF,
            set: USB_PAD_ENABLE | CLK_EN | AHB_CLK_FORCE_ON | PHY_CLK_FORCE_ON,
            clear: PHY_SEL,
        },
        EnableStep::SelectOtgPhy => RegisterWrite {
            address: RTC_CNTL_USB_CONF,
            set: SW_HW_USB_PHY_SEL | SW_USB_PHY_SEL,
            clear: 0,
        },
        EnableStep::Connect(sig, lvl) => RegisterWrite {
            address: (GPIO_FUNC_IN_SEL_CFG + 4 * signal_index(sig)) as usize,
            set: SIG_IN_SEL | (if lvl == Level::High {
                CONST_ONE_INPUT
            } else {
                CONST_ZERO_INPUT
            }),
            clear: 0xffff_ffff,
        },
        EnableStep::OverridePulls => RegisterWrite {
            address: USB_WRAP_OTG_CONF,
            set: PAD_PULL_OVERRIDE | DP_PULLUP,
            clear: DP_PULLDOWN | DM_PULLUP | DM_PULLDOWN,
        },
    }
}

/// The value a register holds after `w` is applied to `old`.
pub open spec fn written(w: RegisterWrite, old: u32) -> u32 {
    (old & !w.clear) | w.set
}

/// The register writes change the configuration registers exactly as the
/// steps change the block: each write of the wrapper's register gives the
/// step's new configuration, and the write of the RTC register gives the
/// transceiver selection.
pub proof fn lemma_writes_match_steps(c: u32)
    ensures
        written(step_write(EnableStep::ConfigurePhy), c) == conf_after_phy(c),
        written(step_write(EnableStep::OverridePulls), c) == conf_after_pulls(c),
        written(step_write(EnableStep::SelectOtgPhy), c) == rtc_after_phy_select(c),
        step_write(EnableStep::ConfigurePhy).address == USB_WRAP_OTG_CONF,
        step_write(EnableStep::OverridePulls).address == USB_WRAP_OTG_CONF,
        step_write(EnableStep::SelectOtgPhy).address == RTC_CNTL_USB_CONF,
{
    assert((1u32 << 18) | (1u32 << 31) | (1u32 << 19) | (1u32 << 20) == 0x801c_0000u32) by (bit_vector);
    assert(1u32 << 2 == 4u32) by (bit_vector);
    assert((1u32 << 12) | (1u32 << 13) == 0x3000u32) by (bit_vector);
    assert((1u32 << 14) | (1u32 << 15) | (1u32 << 16) == 0x1_c000u32) by (bit_vector);
    assert((1u32 << 20) | (1u32 << 19) == 0x18_0000u32) by (bit_vector);
    assert((c & !4u32) | 0x801c_0000u32 == (c | 0x801c_0000u32) & !4u32) by (bit_vector);
    assert((c & !0x1_c000u32) | 0x3000u32 == (c | 0x3000u32) & !0x1_c000u32) by (bit_vector);
    assert((c & !0u32) | 0x18_0000u32 == c | 0x18_0000u32) by (bit_vector);
}

/// Returns the register write that carries out `step` on the ESP32-S3.
pub fn esp32s3_register_write(step: EnableStep) -> (r: RegisterWrite)
    ensures
        r == step_write(step),
{
    match step {
        EnableStep::ConfigurePhy => RegisterWrite {
            address: USB_WRAP_OTG_CONF,
            set: USB_PAD_ENABLE | CLK_EN | AHB_CLK_FORCE_ON | PHY_CLK_FORCE_ON,
            clear: PHY_SEL,
        },
        EnableStep::SelectOtgPhy => RegisterWrite {
            address: RTC_CNTL_USB_CONF,
            set: SW_HW_USB_PHY_SEL | SW_USB_PHY_SEL,
            clear: 0,
        },
        EnableStep::Connect(sig, lvl) => {
            let index: usize = match sig {
                InputSignal::UsbOtgIddig => 58,
                InputSignal::UsbOtgAvalid => 59,
                InputSignal::UsbSrpBvalid => 60,
                InputSignal::UsbOtgVbusvalid => 61,
            };
            let input: u32 = match lvl {
                Level::High => CONST_ONE_INPUT,
                Level::Low => CONST_ZERO_INPUT,
            };
            RegisterWrite {
                address: GPIO_FUNC_IN_SEL_CFG + 4 * index,
                set: SIG_IN_SEL | input,
                clear: 0xffff_ffff,
            }
        },
        EnableStep::OverridePulls => RegisterWrite {
            address: USB_WRAP_OTG_CONF,
            set: PAD_PULL_OVERRIDE | DP_PULLUP,
            clear: DP_PULLDOWN | DM_PULLUP | DM_PULLDOWN,
        },
    }
}

/// The USB controller block. Whoever holds it owns the block.
pub struct USB0 {
    chip: Chip,
    state: UsbBlockState,
}

impl View for USB0 {
    type V = UsbBlockState;

    closed spec fn view(&self) -> UsbBlockState {
        self.state
    }
}

impl USB0 {
    /// The chip variant that carries the block.
    pub closed spec fn spec_chip(&self) -> Chip {
        self.chip
    }

    /// The handle of the block of `chip` whose state is `state`.
    pub fn new(chip: Chip, state: UsbBlockState) -> (r: USB0)
        ensures
            r@ == state,
            r.spec_chip() == chip,
    {
        USB0 { chip, state }
    }

    /// The chip variant that carries the block.
    pub fn chip(&self) -> (r: Chip)
        ensures
            r == self.spec_chip(),
    {
        self.chip
    }

    /// The block's current state.
    pub fn state(&self) -> (r: UsbBlockState)
        ensures
            r == self@,
    {
        self.state
    }

    /// Performs one step of the bring-up sequence on the block, whose clock
    /// must already run.
    pub fn apply(&mut self, step: EnableStep, peripheral_clock_control: &PeripheralClockControl)
        requires
            peripheral_clock_control.spec_is_enabled(Peripheral::Usb),
        ensures
            final(self)@ == apply_step(old(self)@, step),
            final(self).spec_chip() == old(self).spec_chip(),
    {
        match step {
            EnableStep::ConfigurePhy => {
                self.state.otg_conf = (self.state.otg_conf | (USB_PAD_ENABLE | CLK_EN
                    | AHB_CLK_FORCE_ON | PHY_CLK_FORCE_ON)) & !PHY_SEL;
            },
            EnableStep::SelectOtgPhy => {
                self.state.rtc_usb_conf = self.state.rtc_usb_conf | (SW_HW_USB_PHY_SEL
                    | SW_USB_PHY_SEL);
            },
            EnableStep::Connect(sig, lvl) => match sig {
                InputSignal::UsbOtgIddig => self.state.iddig = Some(lvl),
                InputSignal::UsbSrpBvalid => self.state.bvalid = Some(lvl),
                InputSignal::UsbOtgVbusvalid => self.state.vbusvalid = Some(lvl),
                InputSignal::UsbOtgAvalid => self.state.avalid = Some(lvl),
            },
            EnableStep::OverridePulls => {
                self.state.otg_conf = (self.state.otg_conf | (PAD_PULL_OVERRIDE | DP_PULLUP))
                    & !(DP_PULLDOWN | DM_PULLUP | DM_PULLDOWN);
            },
        }
    }
}

/// The USB controller bound to its select, data-plus and data-minus lines.
/// Constructing it enables the controller's clock and brings the block up
/// in device mode.
pub struct USB<S, P, M> where
    S: UsbSel + Send + Sync,
    P: UsbDp + Send + Sync,
    M: UsbDm + Send + Sync,
 {
    usb0: USB0,
    _usb_sel: S,
    _usb_dp: P,
    _usb_dm: M,
}

impl<S, P, M> USB<S, P, M> where
    S: UsbSel + Send + Sync,
    P: UsbDp + Send + Sync,
    M: UsbDm + Send + Sync,
 {
    /// The block's state, as the binding holds it.
    pub closed spec fn block(&self) -> UsbBlockState {
        self.usb0@
    }

    /// The chip variant that carries the bound block.
    pub closed spec fn chip(&self) -> Chip {
        self.usb0.spec_chip()
    }

    /// The select-line token the binding holds.
    pub closed spec fn sel(&self) -> S {
        self._usb_sel
    }

    /// The data-plus token the binding holds.
    pub closed spec fn dp(&self) -> P {
        self._usb_dp
    }

    /// The data-minus token the binding holds.
    pub closed spec fn dm(&self) -> M {
        self._usb_dm
    }

    /// Binds the block to its lines: enables the controller's clock, then,
    /// with the clock running, runs the bring-up sequence of the block's chip
    /// on the block, step by step in order.
    pub fn new(
        usb0: USB0,
        usb_sel: S,
        usb_dp: P,
        usb_dm: M,
        peripheral_clock_control: &mut PeripheralClockControl,
    ) -> (r: Self)
        ensures
            *final(peripheral_clock_control) == old(peripheral_clock_control).after_enable(
                Peripheral::Usb,
            ),
            r.chip() == usb0.spec_chip(),
            r.block() == run_steps(usb0@, enable_plan(usb0.spec_chip())),
            r.block() == device_mode_state(usb0.spec_chip(), usb0@),
            r.sel() == usb_sel,
            r.dp() == usb_dp,
            r.dm() == usb_dm,
    {
        peripheral_clock_control.enable(Peripheral::Usb);
        let mut usb0 = usb0;
        let ghost start = usb0@;
        let ghost chip = usb0.spec_chip();
        let steps = enable_steps(usb0.chip());
        let mut i: usize = 0;
        while i < steps.len()
            invariant
                steps@ == enable_plan(chip),
                usb0.spec_chip() == chip,
                peripheral_clock_control.spec_is_enabled(Peripheral::Usb),
                0 <= i <= steps@.len(),
                usb0@ == run_steps(start, steps@.take(i as int)),
            decreases steps@.len() - i,
        {
            usb0.apply(steps[i], peripheral_clock_control);
            assert(steps@.take(i + 1).drop_last() =~= steps@.take(i as int));
            i = i + 1;
        }
        assert(steps@.take(i as int) =~= steps@);
        proof {
            lemma_plan_reaches_device_mode(chip, start);
        }
        USB { usb0, _usb_sel: usb_sel, _usb_dp: usb_dp, _usb_dm: usb_dm }
    }

    /// The block's current state.
    pub fn block_state(&self) -> (r: UsbBlockState)
        ensures
            r == self.block(),
    {
        self.usb0.state()
    }

    /// Frequency of the bus that clocks the controller, in hertz.
    pub fn ahb_frequency_hz(&self) -> (r: u32)
        ensures
            r == AHB_FREQUENCY_HZ,
    {
        AHB_FREQUENCY_HZ
    }
}

} // verus!
