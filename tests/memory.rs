use cuda_oxide::context::Context;
use cuda_oxide::driver::DriverCall;
use cuda_oxide::error::ErrorCode;
use cuda_oxide::mem::{DeviceBox, DevicePtr};
use cuda_oxide::stream::Stream;

#[test]
fn subslices_compose() {
    let mut ctx = Context::new(0, 1).unwrap();
    let handle = ctx.enter(0).unwrap();
    let p = DevicePtr::from_raw_parts(handle.clone(), 0x1000, 64);
    let outer = p.subslice(8, 48);
    let inner = outer.subslice(8, 40);
    let direct = p.subslice(16, 48);
    assert_eq!((inner.as_raw(), inner.len()), (direct.as_raw(), direct.len()));
    assert_eq!((inner.as_raw(), inner.len()), (0x1010, 32));
    let empty = p.subslice(64, 64);
    assert!(empty.is_empty());
    assert_eq!(empty.as_raw(), 0x1040);
    assert_eq!(p.subslice(0, 64).len(), 64);
}

#[test]
fn subslice_load_covers_parent_range() {
    let mut ctx = Context::new(0, 1).unwrap();
    let handle = ctx.enter(0).unwrap();
    let p = DevicePtr::from_raw_parts(handle, 0x2000, 100);
    assert_eq!(p.subslice(10, 30).load(), DriverCall::MemcpyDtoH { src: 0x200a, len: 20 });
    assert_eq!(p.load(), DriverCall::MemcpyDtoH { src: 0x2000, len: 100 });
}

#[test]
fn copy_within_one_context() {
    let mut ctx = Context::new(0, 7).unwrap();
    let handle = ctx.enter(0).unwrap();
    let a = DevicePtr::from_raw_parts(handle.clone(), 0x100, 16);
    let b = DevicePtr::from_raw_parts(handle.clone(), 0x900, 16);
    assert_eq!(a.copy_to(&b), DriverCall::Memcpy { dst: 0x900, src: 0x100, len: 16 });
    assert_eq!(b.copy_from(&a), DriverCall::Memcpy { dst: 0x900, src: 0x100, len: 16 });
    let mut s = Stream::new(&handle, 0, 55).unwrap();
    assert_eq!(
        a.copy_to_stream(&b, &mut s),
        DriverCall::MemcpyAsync { dst: 0x900, src: 0x100, len: 16, stream: 55 }
    );
    assert_eq!(
        b.copy_from_stream(&a, &mut s),
        DriverCall::MemcpyAsync { dst: 0x900, src: 0x100, len: 16, stream: 55 }
    );
}

#[test]
fn copy_across_contexts_is_a_peer_copy() {
    let mut c1 = Context::new(0, 7).unwrap();
    let mut c2 = Context::new(0, 8).unwrap();
    let h1 = c1.enter(0).unwrap();
    let h2 = c2.enter(0).unwrap();
    let a = DevicePtr::from_raw_parts(h1.clone(), 0x100, 8);
    let b = DevicePtr::from_raw_parts(h2, 0x200, 8);
    assert_eq!(
        a.copy_to(&b),
        DriverCall::MemcpyPeer { dst: 0x200, dst_context: 8, src: 0x100, src_context: 7, len: 8 }
    );
    let mut s = Stream::new(&h1, 0, 3).unwrap();
    assert_eq!(
        a.copy_to_stream(&b, &mut s),
        DriverCall::MemcpyPeerAsync { dst: 0x200, dst_context: 8, src: 0x100, src_context: 7, len: 8, stream: 3 }
    );
}

#[test]
fn memsets_count_lanes() {
    let mut ctx = Context::new(0, 1).unwrap();
    let handle = ctx.enter(0).unwrap();
    let p = DevicePtr::from_raw_parts(handle.clone(), 0x40, 12);
    assert_eq!(p.memset_d8(0xaa), DriverCall::MemsetD8 { dst: 0x40, value: 0xaa, count: 12 });
    assert_eq!(p.memset_d16(0xbeef), DriverCall::MemsetD16 { dst: 0x40, value: 0xbeef, count: 6 });
    assert_eq!(p.memset_d32(7), DriverCall::MemsetD32 { dst: 0x40, value: 7, count: 3 });
    let mut s = Stream::new(&handle, 0, 9).unwrap();
    assert_eq!(
        p.memset_d16_stream(1, &mut s),
        DriverCall::MemsetD16Async { dst: 0x40, value: 1, count: 6, stream: 9 }
    );
    assert_eq!(
        p.memset_d32_stream(1, &mut s),
        DriverCall::MemsetD32Async { dst: 0x40, value: 1, count: 3, stream: 9 }
    );
    assert_eq!(
        p.memset_d8_stream(1, &mut s),
        DriverCall::MemsetD8Async { dst: 0x40, value: 1, count: 12, stream: 9 }
    );
}

#[test]
fn new_box_stores_its_input() {
    let mut ctx = Context::new(0, 1).unwrap();
    let handle = ctx.enter(0).unwrap();
    let input = [1u8, 2, 3, 4, 5];
    assert_eq!(DeviceBox::new_call(&input), DriverCall::MemAlloc { size: 5 });
    let (b, store) = DeviceBox::new(&handle, &input, 0, 0x5000).unwrap();
    assert_eq!(store, DriverCall::MemcpyHtoD { dst: 0x5000, data: input.to_vec() });
    assert_eq!(b.as_ptr().len(), 5);
    assert_eq!(b.as_ptr().load(), DriverCall::MemcpyDtoH { src: 0x5000, len: 5 });
    assert_eq!(b.as_ptr().loaded(0, input.to_vec()), Ok(input.to_vec()));
    assert_eq!(b.free_call(), DriverCall::MemFree { ptr: 0x5000 });
    assert_eq!(DeviceBox::new(&handle, &input, 2, 0).err().map(|e| e), Some(ErrorCode::OutOfMemory));
}

#[test]
fn empty_box() {
    let mut ctx = Context::new(0, 1).unwrap();
    let handle = ctx.enter(0).unwrap();
    let (b, store) = DeviceBox::new(&handle, &[], 0, 0x10).unwrap();
    assert_eq!(store, DriverCall::MemcpyHtoD { dst: 0x10, data: vec![] });
    assert!(b.as_ptr().is_empty());
    b.leak();
}

#[test]
fn allocation_and_raw_box() {
    let mut ctx = Context::new(0, 1).unwrap();
    let handle = ctx.enter(0).unwrap();
    assert_eq!(DeviceBox::alloc_call(64), DriverCall::MemAlloc { size: 64 });
    let b = DeviceBox::allocate(&handle, 64, 0, 0x8000).unwrap();
    assert_eq!((b.as_ptr().as_raw(), b.as_ptr().len()), (0x8000, 64));
    let raw = DevicePtr::from_raw_parts(handle.clone(), 0x9000, 4);
    let owned = DeviceBox::from_raw(raw);
    assert_eq!(owned.free_call(), DriverCall::MemFree { ptr: 0x9000 });
}

#[test]
fn queued_transfers_retain_host_buffers_until_sync() {
    let mut ctx = Context::new(0, 1).unwrap();
    let handle = ctx.enter(0).unwrap();
    let mut s = Stream::new(&handle, 0, 77).unwrap();
    let p = DevicePtr::from_raw_parts(handle.clone(), 0x300, 3);
    assert_eq!(
        p.store_stream(&[9, 8, 7], &mut s),
        DriverCall::MemcpyHtoDAsync { dst: 0x300, pending: 0, stream: 77 }
    );
    assert_eq!(p.load_stream(&mut s), DriverCall::MemcpyDtoHAsync { src: 0x300, len: 3, pending: 1, stream: 77 });
    assert_eq!(s.pending_buffers(), &vec![vec![9u8, 8, 7], vec![0u8, 0, 0]]);
    assert_eq!(s.sync_call(), DriverCall::StreamSynchronize { stream: 77 });
    assert_eq!(s.sync(700).err(), Some(ErrorCode::IllegalAddress));
    assert_eq!(s.pending_buffers().len(), 2);
    let released = s.sync(0).unwrap();
    assert_eq!(released, vec![vec![9u8, 8, 7], vec![0u8, 0, 0]]);
    assert!(s.pending_buffers().is_empty());
    let (_b, call) = DeviceBox::new_stream(&handle, &[4, 4], &mut s, 0, 0x600).unwrap();
    assert_eq!(call, DriverCall::MemcpyHtoDAsync { dst: 0x600, pending: 0, stream: 77 });
    assert_eq!(s.pending_buffers(), &vec![vec![4u8, 4]]);
}
