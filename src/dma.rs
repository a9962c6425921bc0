//! DMA transmit buffers: a data region and the descriptor chain that
//! describes it to the DMA engine.

use vstd::prelude::*;

verus! {

/// Largest number of bytes one descriptor can describe.
pub const MAX_CHUNK_SIZE: usize = 4092;

/// Who may touch a descriptor and the bytes it describes.
#[derive(Clone, Copy, Debug, PartialEq, Eq, Structural)]
pub enum Owner {
    Cpu,
    Dma,
}

/// One entry of a descriptor chain.
#[derive(Clone, Copy, Debug, PartialEq, Eq, Structural)]
pub struct DmaDescriptor {
    /// Size of the region the descriptor describes.
    pub size: usize,
    /// Number of valid bytes in that region.
    pub length: usize,
    /// Set on the last descriptor of a chain.
    pub suc_eof: bool,
    /// The descriptor's ownership marker.
    pub owner: Owner,
}

impl DmaDescriptor {
    /// A descriptor that describes nothing and is owned by the CPU.
    pub fn empty() -> (r: DmaDescriptor)
        ensures
            r == (DmaDescriptor { size: 0, length: 0, suc_eof: false, owner: Owner::Cpu }),
    {
        DmaDescriptor { size: 0, length: 0, suc_eof: false, owner: Owner::Cpu }
    }
}

/// Why a buffer could not be handed to the DMA engine.
#[derive(Clone, Copy, Debug, PartialEq, Eq, Structural)]
pub enum SetupError {
    /// The buffer has fewer descriptors than its data needs.
    InsufficientDescriptors,
}

/// Number of descriptors in the chain for `n` bytes: one per started chunk
/// of `MAX_CHUNK_SIZE` bytes, and one for an empty buffer.
pub open spec fn descriptors_needed(n: int) -> int {
    if n <= 0 {
        1
    } else {
        (n - 1) / (MAX_CHUNK_SIZE as int) + 1
    }
}

/// Number of bytes that descriptor `i` of the chain for `n` bytes describes:
/// a full chunk for all but the last, the rest for the last.
pub open spec fn chunk_len(i: int, n: int) -> int {
    if i + 1 < descriptors_needed(n) {
        MAX_CHUNK_SIZE as int
    } else {
        n - (descriptors_needed(n) - 1) * (MAX_CHUNK_SIZE as int)
    }
}

/// Descriptor `i` of the chain for `n` bytes, as handed to the engine.
pub open spec fn chain_descriptor(i: int, n: int) -> DmaDescriptor {
    DmaDescriptor {
        size: chunk_len(i, n) as usize,
        length: chunk_len(i, n) as usize,
        suc_eof: i == descriptors_needed(n) - 1,
        owner: Owner::Dma,
    }
}

/// Whether descriptors `d` can carry `n` bytes.
pub open spec fn setup_ok(d: Seq<DmaDescriptor>, n: int) -> bool {
    d.len() >= descriptors_needed(n)
}

/// The descriptors once the chain for `n` bytes is written into them; those
/// past the chain are left as they were.
pub open spec fn prepared(d: Seq<DmaDescriptor>, n: int) -> Seq<DmaDescriptor> {
    Seq::new(
        d.len(),
        |i: int|
            if i < descriptors_needed(n) {
                chain_descriptor(i, n)
            } else {
                d[i]
            },
    )
}

/// The descriptors once the engine has consumed the chain for `n` bytes:
/// every descriptor is handed back to the CPU, the rest of each is kept.
pub open spec fn completed(d: Seq<DmaDescriptor>) -> Seq<DmaDescriptor> {
    Seq::new(d.len(), |i: int| DmaDescriptor { owner: Owner::Cpu, ..d[i] })
}

/// Whether `d` holds the chain for `n` bytes, armed for the engine.
pub open spec fn chain_armed(d: Seq<DmaDescriptor>, n: int) -> bool {
    &&& setup_ok(d, n)
    &&& forall|i: int| 0 <= i < descriptors_needed(n) ==> #[trigger] d[i] == chain_descriptor(i, n)
}

/// Whether no descriptor is marked as owned by the engine.
pub open spec fn chain_released(d: Seq<DmaDescriptor>) -> bool {
    forall|i: int| 0 <= i < d.len() ==> #[trigger] d[i].owner == Owner::Cpu
}

/// Number of descriptors in the chain for `n` bytes.
pub fn descriptor_count(n: usize) -> (r: usize)
    ensures
        r == descriptors_needed(n as int),
        r >= 1,
{
    if n == 0 {
        1
    } else {
        (n - 1) / MAX_CHUNK_SIZE + 1
    }
}

/// Descriptor `i` of the chain for `n` bytes.
pub fn chain_entry(i: usize, n: usize) -> (r: DmaDescriptor)
    requires
        i < descriptors_needed(n as int),
    ensures
        r == chain_descriptor(i as int, n as int),
{
    let need = descriptor_count(n);
    let len: usize;
    if i + 1 < need {
        len = MAX_CHUNK_SIZE;
    } else {
        let full = need - 1;
        assert(full * (MAX_CHUNK_SIZE as int) <= n) by (nonlinear_arith)
            requires
                full == (if n == 0 { 0 } else { (n - 1) / (MAX_CHUNK_SIZE as int) }),
        ;
        len = n - full * MAX_CHUNK_SIZE;
    }
    DmaDescriptor { size: len, length: len, suc_eof: i == need - 1, owner: Owner::Dma }
}

/// A transmit buffer: the data and the descriptors that can describe it.
/// Whoever holds it may read and write both.
pub struct DmaTxBuf {
    descriptors: Vec<DmaDescriptor>,
    buffer: Vec<u8>,
}

impl View for DmaTxBuf {
    type V = (Seq<DmaDescriptor>, Seq<u8>);

    closed spec fn view(&self) -> (Seq<DmaDescriptor>, Seq<u8>) {
        (self.descriptors@, self.buffer@)
    }
}

impl DmaTxBuf {
    /// Pairs `buffer` with the descriptors that will describe it.
    pub fn new(descriptors: Vec<DmaDescriptor>, buffer: Vec<u8>) -> (r: DmaTxBuf)
        ensures
            r@ == (descriptors@, buffer@),
    {
        DmaTxBuf { descriptors, buffer }
    }

    /// Number of data bytes.
    pub fn len(&self) -> (r: usize)
        ensures
            r == self@.1.len(),
    {
        self.buffer.len()
    }

    /// The data bytes.
    pub fn as_slice(&self) -> (r: &[u8])
        ensures
            r@ == self@.1,
    {
        self.buffer.as_slice()
    }

    /// The descriptors.
    pub fn descriptors(&self) -> (r: &[DmaDescriptor])
        ensures
            r@ == self@.0,
    {
        self.descriptors.as_slice()
    }

    /// Takes the buffer apart into its descriptors and its data.
    pub fn into_parts(self) -> (r: (Vec<DmaDescriptor>, Vec<u8>))
        ensures
            (r.0@, r.1@) == self@,
    {
        (self.descriptors, self.buffer)
    }

    /// Writes the chain for the data into the descriptors and hands them to
    /// the engine, or, where there are too few descriptors, returns the
    /// buffer untouched with the error.
    pub(crate) fn arm(self) -> (r: Result<DmaTxBuf, (SetupError, DmaTxBuf)>)
        ensures
            match r {
                Ok(b) => setup_ok(self@.0, self@.1.len() as int) && b@ == (
                    prepared(self@.0, self@.1.len() as int),
                    self@.1,
                ),
                Err((e, b)) => !setup_ok(self@.0, self@.1.len() as int) && e
                    == SetupError::InsufficientDescriptors && b@ == self@,
            },
    {
        let n = self.buffer.len();
        let need = descriptor_count(n);
        if self.descriptors.len() < need {
            return Err((SetupError::InsufficientDescriptors, self));
        }
        let DmaTxBuf { mut descriptors, buffer } = self;
        let ghost d0 = descriptors@;
        let mut i: usize = 0;
        while i < need
            invariant
                need == descriptors_needed(n as int),
                n == buffer@.len(),
                need <= descriptors@.len(),
                descriptors@.len() == d0.len(),
                0 <= i <= need,
                forall|j: int|
                    0 <= j < descriptors@.len() ==> #[trigger] descriptors@[j] == if j < i {
                        chain_descriptor(j, n as int)
                    } else {
                        d0[j]
                    },
            decreases need - i,
        {
            let e = chain_entry(i, n);
            descriptors.set(i, e);
            i = i + 1;
        }
        assert(descriptors@ =~= prepared(d0, n as int));
        Ok(DmaTxBuf { descriptors, buffer })
    }

    /// Hands every descriptor back to the CPU once the engine has consumed
    /// the chain. The chain must be armed.
    pub(crate) fn release(self) -> (r: DmaTxBuf)
        requires
            chain_armed(self@.0, self@.1.len() as int),
        ensures
            r@ == (completed(self@.0), self@.1),
            chain_released(r@.0),
    {
        let DmaTxBuf { mut descriptors, buffer } = self;
        let n = buffer.len();
        let need = descriptor_count(n);
        let ghost d0 = descriptors@;
        let mut i: usize = 0;
        while i < descriptors.len()
            invariant
                need == descriptors_needed(n as int),
                n == buffer@.len(),
                chain_armed(d0, n as int),
                descriptors@.len() == d0.len(),
                0 <= i <= descriptors@.len(),
                forall|j: int|
                    0 <= j < descriptors@.len() ==> #[trigger] descriptors@[j] == if j < i {
                        DmaDescriptor { owner: Owner::Cpu, ..d0[j] }
                    } else {
                        d0[j]
                    },
            decreases descriptors@.len() - i,
        {
            let d = descriptors[i];
            assert(i < need ==> d.owner == Owner::Dma);
            descriptors.set(i, DmaDescriptor { owner: Owner::Cpu, ..d });
            i = i + 1;
        }
        assert(descriptors@ =~= completed(d0));
        DmaTxBuf { descriptors, buffer }
    }
}

} // verus!
