use cuda_oxide::context::Context;
use cuda_oxide::kernel_params::{le_bytes, KernelParameters};
use cuda_oxide::mem::{DeviceBox, DevicePtr};

fn encode<K: KernelParameters>(k: &K) -> Vec<Vec<u8>> {
    let mut out = vec![];
    k.params(&mut out);
    out
}

#[test]
fn integers_are_little_endian() {
    assert_eq!(encode(&0xabu8), vec![vec![0xab]]);
    assert_eq!(encode(&0x1234u16), vec![vec![0x34, 0x12]]);
    assert_eq!(encode(&0x01020304u32), vec![vec![4, 3, 2, 1]]);
    assert_eq!(encode(&1u64), vec![vec![1, 0, 0, 0, 0, 0, 0, 0]]);
    assert_eq!(encode(&-1i8), vec![vec![0xff]]);
    assert_eq!(encode(&-2i16), vec![vec![0xfe, 0xff]]);
    assert_eq!(encode(&i64::MIN), vec![vec![0, 0, 0, 0, 0, 0, 0, 0x80]]);
    assert_eq!(encode(&258usize), vec![vec![2, 1, 0, 0, 0, 0, 0, 0]]);
    assert_eq!(le_bytes(0x0a0b0c0d, 2), vec![0x0d, 0x0c]);
}

#[test]
fn compound_values_flatten_in_order() {
    assert_eq!(encode(&()), Vec::<Vec<u8>>::new());
    assert_eq!(encode(&[1u16, 2, 3]), vec![vec![1, 0], vec![2, 0], vec![3, 0]]);
    assert_eq!(encode(&(1u8, (2u8, 3u8), [4u8; 2])), vec![vec![1], vec![2], vec![3], vec![4], vec![4]]);
    assert_eq!(encode(&vec![9u8, 9]), vec![vec![9, 9]]);
    assert_eq!(encode(&Box::new(7u8)), vec![vec![7]]);
    let twelve = (1u8, 2u8, 3u8, 4u8, 5u8, 6u8, 7u8, 8u8, 9u8, 10u8, 11u8, 12u8);
    assert_eq!(encode(&twelve).len(), 12);
    assert_eq!(encode(&twelve)[11], vec![12]);
    let sixteen = (1u8, 2u8, 3u8, 4u8, 5u8, 6u8, 7u8, 8u8, 9u8, 10u8, 11u8, 12u8, 13u8, 14u8, 15u8, 16u32);
    assert_eq!(encode(&sixteen).len(), 16);
    assert_eq!(encode(&sixteen)[15], vec![16, 0, 0, 0]);
    let bytes: &[u8] = &[3, 1, 4];
    assert_eq!(encode(&bytes), vec![vec![3, 1, 4]]);
    assert_eq!(encode(&(bytes, 2u8)), vec![vec![3, 1, 4], vec![2]]);
}

#[test]
fn device_memory_passes_its_address() {
    let mut ctx = Context::new(0, 1).unwrap();
    let handle = ctx.enter(0).unwrap();
    let p = DevicePtr::from_raw_parts(handle.clone(), 0x1122, 4);
    assert_eq!(encode(&p), vec![vec![0x22, 0x11, 0, 0, 0, 0, 0, 0]]);
    let b = DeviceBox::allocate(&handle, 4, 0, 0x3344).unwrap();
    assert_eq!(encode(&(&b, 5u32)), vec![vec![0x44, 0x33, 0, 0, 0, 0, 0, 0], vec![5, 0, 0, 0]]);
}
