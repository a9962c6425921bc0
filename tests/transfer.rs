use esp_hal_common::clock::{Peripheral, PeripheralClockControl};
use esp_hal_common::dma::{
    chain_entry, descriptor_count, DmaDescriptor, DmaTxBuf, Owner, SetupError, MAX_CHUNK_SIZE,
};
use esp_hal_common::i2s_parallel::{I2sParallel, I2S1};

fn driver() -> I2sParallel {
    let mut clocks = PeripheralClockControl::new();
    let d = I2sParallel::new(I2S1::new(), 1_000_000, &mut clocks);
    assert!(clocks.is_enabled(Peripheral::I2s1));
    d
}

fn descriptors(n: usize) -> Vec<DmaDescriptor> {
    vec![DmaDescriptor::empty(); n]
}

fn interleaved(len: usize) -> Vec<u8> {
    let mut data = vec![0u8; len];
    for (i, chunk) in data.chunks_mut(4).enumerate() {
        let offset = i * 4;
        chunk[0] = (offset + 2) as u8;
        chunk[1] = (offset + 3) as u8;
        chunk[2] = offset as u8;
        chunk[3] = (offset + 1) as u8;
    }
    data
}

#[test]
fn descriptor_count_per_chunk() {
    assert_eq!(MAX_CHUNK_SIZE, 4092);
    assert_eq!(descriptor_count(0), 1);
    assert_eq!(descriptor_count(1), 1);
    assert_eq!(descriptor_count(4092), 1);
    assert_eq!(descriptor_count(4093), 2);
    assert_eq!(descriptor_count(8184), 2);
    assert_eq!(descriptor_count(8185), 3);
}

#[test]
fn chain_entries_split_the_data() {
    let first = chain_entry(0, 5000);
    assert_eq!(first, DmaDescriptor { size: 4092, length: 4092, suc_eof: false, owner: Owner::Dma });
    let last = chain_entry(1, 5000);
    assert_eq!(last, DmaDescriptor { size: 908, length: 908, suc_eof: true, owner: Owner::Dma });
}

#[test]
fn start_then_wait_returns_the_same_buffer() {
    let data = interleaved(256);
    let buf = DmaTxBuf::new(descriptors(3), data.clone());
    let (drv, buf) = match driver().start(buf) {
        Ok(t) => t.wait(),
        Err(_) => panic!("start failed"),
    };
    assert_eq!(drv.frequency_hz(), 1_000_000);
    assert_eq!(buf.len(), 256);
    assert_eq!(buf.as_slice(), &data[..]);
    let d = buf.descriptors();
    assert_eq!(d.len(), 3);
    assert_eq!(d[0], DmaDescriptor { size: 256, length: 256, suc_eof: true, owner: Owner::Cpu });
    assert_eq!(d[1], DmaDescriptor::empty());
    assert_eq!(d[2], DmaDescriptor::empty());
}

#[test]
fn wait_hands_every_chain_descriptor_back() {
    let buf = DmaTxBuf::new(descriptors(2), vec![7u8; 5000]);
    let (_, buf) = match driver().start(buf) {
        Ok(t) => t.wait(),
        Err(_) => panic!("start failed"),
    };
    let d = buf.descriptors();
    assert!(d.iter().all(|x| x.owner == Owner::Cpu));
    assert_eq!(d[0], DmaDescriptor { size: 4092, length: 4092, suc_eof: false, owner: Owner::Cpu });
    assert_eq!(d[1], DmaDescriptor { size: 908, length: 908, suc_eof: true, owner: Owner::Cpu });
}

#[test]
fn empty_buffer_uses_one_descriptor() {
    let buf = DmaTxBuf::new(descriptors(1), Vec::new());
    let (_, buf) = match driver().start(buf) {
        Ok(t) => t.wait(),
        Err(_) => panic!("start failed"),
    };
    assert_eq!(buf.len(), 0);
    assert_eq!(buf.descriptors()[0], DmaDescriptor { size: 0, length: 0, suc_eof: true, owner: Owner::Cpu });
}

#[test]
fn setup_error_returns_buffer_untouched() {
    let data = interleaved(256);
    let buf = DmaTxBuf::new(Vec::new(), data.clone());
    match driver().start(buf) {
        Ok(_) => panic!("start succeeded without descriptors"),
        Err((e, drv, buf)) => {
            assert_eq!(e, SetupError::InsufficientDescriptors);
            assert_eq!(drv.frequency_hz(), 1_000_000);
            let (d, b) = buf.into_parts();
            assert!(d.is_empty());
            assert_eq!(b, data);
        }
    }
}

#[test]
fn setup_error_leaves_descriptors_untouched() {
    let mut given = descriptors(1);
    given[0].owner = Owner::Dma;
    given[0].size = 3;
    let buf = DmaTxBuf::new(given.clone(), vec![1u8; 4093]);
    match driver().start(buf) {
        Ok(_) => panic!("start succeeded with too few descriptors"),
        Err((e, _, buf)) => {
            assert_eq!(e, SetupError::InsufficientDescriptors);
            assert_eq!(buf.descriptors(), &given[..]);
            assert_eq!(buf.len(), 4093);
        }
    }
}

#[test]
fn ten_cycles_reuse_the_same_region() {
    let data = interleaved(256);
    let mut buf = DmaTxBuf::new(descriptors(1), data.clone());
    let region = buf.as_slice().as_ptr();
    let mut drv = driver();
    for _ in 0..10 {
        let t = match drv.start(buf) {
            Ok(t) => t,
            Err(_) => panic!("start failed"),
        };
        let (d, b) = t.wait();
        drv = d;
        buf = b;
        assert_eq!(buf.len(), 256);
        assert_eq!(buf.as_slice().as_ptr(), region);
        assert_eq!(buf.as_slice(), &data[..]);
        assert_eq!(buf.descriptors()[0].owner, Owner::Cpu);
    }
}

#[test]
fn wait_clears_surplus_descriptors_too() {
    let mut given = descriptors(2);
    given[1].owner = Owner::Dma;
    let buf = DmaTxBuf::new(given, Vec::new());
    let (_, buf) = match driver().start(buf) {
        Ok(t) => t.wait(),
        Err(_) => panic!("start failed"),
    };
    assert!(buf.descriptors().iter().all(|x| x.owner == Owner::Cpu));
    assert_eq!(buf.descriptors()[1], DmaDescriptor::empty());
}
