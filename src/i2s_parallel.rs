//! Parallel output through the I2S engine: a driver that hands transmit
//! buffers to DMA, and the transfer that owns driver and buffer while the
//! engine reads the buffer.

use vstd::prelude::*;
use crate::clock::{Peripheral, PeripheralClockControl};
use crate::dma::{
    DmaDescriptor, DmaTxBuf, SetupError, chain_armed, chain_released, completed, prepared,
    setup_ok,
};

verus! {

/// The I2S1 block. Whoever holds it owns the block.
pub struct I2S1 {}

impl I2S1 {
    /// The handle of the block.
    pub fn new() -> (r: I2S1) {
        I2S1 {}
    }
}

/// Parallel output driver on the I2S1 block.
pub struct I2sParallel {
    _i2s: I2S1,
    frequency_hz: u32,
}

impl I2sParallel {
    /// The output clock the driver was set up with, in hertz.
    pub closed spec fn spec_frequency_hz(&self) -> u32 {
        self.frequency_hz
    }

    /// Takes the block, enables its clock and sets the output clock.
    pub fn new(i2s: I2S1, frequency_hz: u32, peripheral_clock_control: &mut PeripheralClockControl) -> (r:
        Self)
        ensures
            *final(peripheral_clock_control) == old(peripheral_clock_control).after_enable(
                Peripheral::I2s1,
            ),
            r.spec_frequency_hz() == frequency_hz,
    {
        peripheral_clock_control.enable(Peripheral::I2s1);
        I2sParallel { _i2s: i2s, frequency_hz }
    }

    /// The output clock the driver was set up with, in hertz.
    pub fn frequency_hz(&self) -> (r: u32)
        ensures
            r == self.spec_frequency_hz(),
    {
        self.frequency_hz
    }

    /// Starts sending `buf`: writes its descriptor chain and hands the chain
    /// to the engine. The transfer that comes back owns the driver and the
    /// buffer until it is waited for. Where the buffer has too few
    /// descriptors for its data, nothing is started and both come back
    /// unchanged with the error.
    pub fn start(self, buf: DmaTxBuf) -> (r: Result<I2sParallelTransfer, (SetupError, Self, DmaTxBuf)>)
        ensures
            match r {
                Ok(t) => {
                    &&& setup_ok(buf@.0, buf@.1.len() as int)
                    &&& t.driver() == self
                    &&& t.buffer() == (prepared(buf@.0, buf@.1.len() as int), buf@.1)
                    &&& t.wf()
                },
                Err((e, d, b)) => {
                    &&& !setup_ok(buf@.0, buf@.1.len() as int)
                    &&& e == SetupError::InsufficientDescriptors
                    &&& d == self
                    &&& b@ == buf@
                },
            },
    {
        match buf.arm() {
            Ok(armed) => {
                proof {
                    lemma_prepared_is_armed(buf@.0, buf@.1.len() as int);
                }
                Ok(I2sParallelTransfer { driver: self, buf: armed })
            },
            Err((e, b)) => Err((e, self, b)),
        }
    }
}

/// A transfer in flight: it owns the driver and the buffer until the engine
/// has consumed the buffer's chain.
pub struct I2sParallelTransfer {
    driver: I2sParallel,
    buf: DmaTxBuf,
}

impl I2sParallelTransfer {
    /// The driver the transfer holds.
    pub closed spec fn driver(&self) -> I2sParallel {
        self.driver
    }

    /// The buffer the transfer holds, as descriptors and data.
    pub closed spec fn buffer(&self) -> (Seq<DmaDescriptor>, Seq<u8>) {
        self.buf@
    }

    /// The buffer's chain is armed for the engine.
    pub open spec fn wf(&self) -> bool {
        chain_armed(self.buffer().0, self.buffer().1.len() as int)
    }

    /// Waits until the engine has consumed the whole chain, then gives back
    /// the driver and the buffer: the data as it was sent, and every
    /// descriptor handed back to the CPU.
    pub fn wait(self) -> (r: (I2sParallel, DmaTxBuf))
        requires
            self.wf(),
        ensures
            r.0 == self.driver(),
            r.1@ == (completed(self.buffer().0), self.buffer().1),
            chain_released(r.1@.0),
    {
        let I2sParallelTransfer { driver, buf } = self;
        (driver, buf.release())
    }
}

/// The descriptors of a buffer with enough of them, once prepared, hold the
/// armed chain.
pub proof fn lemma_prepared_is_armed(d: Seq<DmaDescriptor>, n: int)
    requires
        setup_ok(d, n),
    ensures
        chain_armed(prepared(d, n), n),
{
}

/// A transfer gives back what it was given: for descriptors that can carry
/// the data, starting and then waiting returns the same data and as many
/// descriptors, none of them still marked as owned by the engine, and the
/// buffer can be started again with the same outcome.
pub proof fn lemma_round_trip(d: Seq<DmaDescriptor>, data: Seq<u8>)
    requires
        setup_ok(d, data.len() as int),
    ensures
        completed(prepared(d, data.len() as int)).len() == d.len(),
        chain_released(completed(prepared(d, data.len() as int))),
        setup_ok(completed(prepared(d, data.len() as int)), data.len() as int),
        completed(prepared(completed(prepared(d, data.len() as int)), data.len() as int))
            == completed(prepared(d, data.len() as int)),
{
    let n = data.len() as int;
    let once = completed(prepared(d, n));
    assert(completed(prepared(once, n)) =~= once);
}

} // verus!
