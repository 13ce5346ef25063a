use cuda_oxide::context::Context;
use cuda_oxide::dim3::Dim3;
use cuda_oxide::driver::{DriverCall, STREAM_NON_BLOCKING};
use cuda_oxide::error::ErrorCode;
use cuda_oxide::mem::DevicePtr;
use cuda_oxide::module::Module;
use cuda_oxide::stream::{Stream, StreamPool, WaitValueMode};

#[test]
fn stream_query_outcomes() {
    let mut ctx = Context::new(0, 1).unwrap();
    let handle = ctx.enter(0).unwrap();
    assert_eq!(Stream::new_call(), DriverCall::StreamCreate { flags: STREAM_NON_BLOCKING });
    assert_eq!(Stream::new(&handle, 2, 0).err(), Some(ErrorCode::OutOfMemory));
    let s = Stream::new(&handle, 0, 12).unwrap();
    assert_eq!(s.is_synced_call(), DriverCall::StreamQuery { stream: 12 });
    assert_eq!(s.is_synced(0), Ok(true));
    assert_eq!(s.is_synced(600), Ok(false));
    assert_eq!(s.is_synced(719), Err(ErrorCode::LaunchFailed));
    assert_eq!(s.is_synced(4242), Err(ErrorCode::Unknown));
    assert_eq!(s.destroy_call(), DriverCall::StreamDestroy { stream: 12 });
}

#[test]
fn waits_and_writes_carry_flags() {
    let mut ctx = Context::new(0, 1).unwrap();
    let handle = ctx.enter(0).unwrap();
    let mut s = Stream::new(&handle, 0, 5).unwrap();
    let p = DevicePtr::from_raw_parts(handle.clone(), 0x80, 8);
    assert_eq!(
        s.wait_32(&p, 3, WaitValueMode::Eq, false),
        DriverCall::StreamWaitValue32 { stream: 5, addr: 0x80, value: 3, flags: 1 }
    );
    assert_eq!(
        s.wait_64(&p, 3, WaitValueMode::Nor, true),
        DriverCall::StreamWaitValue64 { stream: 5, addr: 0x80, value: 3, flags: 3 | (1 << 30) }
    );
    assert_eq!(
        s.wait_32(&p, 0, WaitValueMode::Geq, true),
        DriverCall::StreamWaitValue32 { stream: 5, addr: 0x80, value: 0, flags: 1 << 30 }
    );
    assert_eq!(
        s.write_32(&p, 9, true),
        DriverCall::StreamWriteValue32 { stream: 5, addr: 0x80, value: 9, flags: 1 }
    );
    assert_eq!(
        s.write_64(&p, 9, false),
        DriverCall::StreamWriteValue64 { stream: 5, addr: 0x80, value: 9, flags: 0 }
    );
    assert_eq!(s.callback(), DriverCall::LaunchHostFunc { stream: 5 });
}

#[test]
fn launch_encodes_parameters() {
    let mut ctx = Context::new(0, 1).unwrap();
    let handle = ctx.enter(0).unwrap();
    let module = Module::load(&handle, 0, 0x77).unwrap();
    let f = module.get_function(0, 0x88).unwrap();
    let mut s = Stream::new(&handle, 0, 5).unwrap();
    let p = DevicePtr::from_raw_parts(handle.clone(), 0x0102030405060708, 8);
    let call = s.launch(&f, Dim3::from_xy(40, 60), Dim3::from_xy(32, 32), 16384, &(&p, 1280usize, -2i32));
    assert_eq!(
        call,
        DriverCall::LaunchKernel {
            function: 0x88,
            grid: (40, 60, 1),
            block: (32, 32, 1),
            shared_mem_bytes: 16384,
            stream: 5,
            params: vec![
                vec![8, 7, 6, 5, 4, 3, 2, 1],
                vec![0, 5, 0, 0, 0, 0, 0, 0],
                vec![0xfe, 0xff, 0xff, 0xff],
            ],
        }
    );
}

#[test]
fn stream_pool_reuses_last_returned() {
    let mut ctx = Context::new(0, 1).unwrap();
    let handle = ctx.enter(0).unwrap();
    let mut pool = StreamPool::new();
    assert!(pool.take().is_none());
    pool.put_back(Stream::new(&handle, 0, 1).unwrap());
    pool.put_back(Stream::new(&handle, 0, 2).unwrap());
    assert_eq!(pool.take().map(|s| s.as_raw()), Some(2));
    assert_eq!(pool.take().map(|s| s.as_raw()), Some(1));
    assert!(pool.take().is_none());
}
