//! Peripheral clock gating: one enable bit and one reset bit per block.

use vstd::prelude::*;

verus! {

/// A peripheral block whose clock can be gated.
#[derive(Clone, Copy, Debug, PartialEq, Eq, Structural)]
pub enum Peripheral {
    I2s0,
    I2s1,
    Usb,
}

/// Position of the block's bit in the clock-enable and reset registers.
pub open spec fn clock_bit(p: Peripheral) -> u32 {
    match p {
        Peripheral::I2s0 => 4,
        Peripheral::I2s1 => 21,
        Peripheral::Usb => 23,
    }
}

/// The block's mask in the clock-enable and reset registers.
pub open spec fn clock_mask(p: Peripheral) -> u32 {
    (1u32 << clock_bit(p)) as u32
}

/// Returns the block's mask in the clock-enable and reset registers.
pub fn peripheral_mask(p: Peripheral) -> (r: u32)
    ensures
        r == clock_mask(p),
{
    match p {
        Peripheral::I2s0 => 1u32 << 4u32,
        Peripheral::I2s1 => 1u32 << 21u32,
        Peripheral::Usb => 1u32 << 23u32,
    }
}

/// The shared clock-control service: the clock-enable register and the
/// reset register of the peripheral blocks.
#[derive(Debug)]
pub struct PeripheralClockControl {
    /// A set bit gates the block's clock on.
    pub clk_en: u32,
    /// A set bit holds the block in reset.
    pub rst_en: u32,
}

impl PeripheralClockControl {
    /// The state after enabling `p`: its clock bit set, its reset bit
    /// cleared, every other bit as before.
    pub open spec fn after_enable(self, p: Peripheral) -> PeripheralClockControl {
        PeripheralClockControl {
            clk_en: self.clk_en | clock_mask(p),
            rst_en: self.rst_en & !clock_mask(p),
        }
    }

    /// Whether the clock of `p` runs and its reset is released.
    pub open spec fn spec_is_enabled(self, p: Peripheral) -> bool {
        self.clk_en & clock_mask(p) == clock_mask(p) && self.rst_en & clock_mask(p) == 0
    }

    /// A service with every clock gated off and every block held in reset.
    pub fn new() -> (r: PeripheralClockControl)
        ensures
            r.clk_en == 0,
            r.rst_en == 0xffff_ffffu32,
    {
        PeripheralClockControl { clk_en: 0, rst_en: 0xffff_ffff }
    }

    /// Turns on the clock of `p` and releases it from reset. A second call
    /// for the same block changes nothing.
    pub fn enable(&mut self, p: Peripheral)
        ensures
            *final(self) == old(self).after_enable(p),
            final(self).spec_is_enabled(p),
    {
        let m = peripheral_mask(p);
        let c = self.clk_en;
        let s = self.rst_en;
        self.clk_en = c | m;
        self.rst_en = s & !m;
        assert((c | m) & m == m) by (bit_vector);
        assert((s & !m) & m == 0) by (bit_vector);
    }

    /// Whether the clock of `p` runs and its reset is released.
    pub fn is_enabled(&self, p: Peripheral) -> (r: bool)
        ensures
            r == self.spec_is_enabled(p),
    {
        let m = peripheral_mask(p);
        self.clk_en & m == m && self.rst_en & m == 0
    }
}

/// Enabling a block's clock is idempotent: enabling it a second time leaves
/// both registers exactly as the first time left them.
pub proof fn lemma_enable_idempotent(c: PeripheralClockControl, p: Peripheral)
    ensures
        c.after_enable(p).after_enable(p) == c.after_enable(p),
{
    let m = clock_mask(p);
    let a = c.clk_en;
    let b = c.rst_en;
    assert((a | m) | m == a | m) by (bit_vector);
    assert((b & !m) & !m == b & !m) by (bit_vector);
}

/// Enabling one block leaves the enable state of every other block as it was.
pub proof fn lemma_enable_keeps_others(c: PeripheralClockControl, p: Peripheral, q: Peripheral)
    requires
        p != q,
    ensures
        c.after_enable(p).spec_is_enabled(q) == c.spec_is_enabled(q),
{
    let m = clock_mask(p);
    let n = clock_mask(q);
    let a = c.clk_en;
    let b = c.rst_en;
    let x = clock_bit(p);
    let y = clock_bit(q);
    assert(x != y && x < 32 && y < 32);
    assert((1u32 << x) & (1u32 << y) == 0) by (bit_vector)
        requires x != y, x < 32, y < 32;
    assert(((a | m) & n == n) == (a & n == n)) by (bit_vector)
        requires m & n == 0;
    assert(((b & !m) & n == 0) == (b & n == 0)) by (bit_vector)
        requires m & n == 0;
}

} // verus!
