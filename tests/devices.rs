use cuda_oxide::context::{Context, InitState, LimitType};
use cuda_oxide::device::{CudaArrayFormat, Device, DeviceAttribute};
use cuda_oxide::driver::{DriverCall, CTX_SCHED_BLOCKING_SYNC, DEVICE_NAME_CAPACITY};
use cuda_oxide::error::ErrorCode;
use cuda_oxide::Cuda;

#[test]
fn enumeration_resolves_every_ordinal_in_order() {
    assert_eq!(Cuda::list_devices_call(), DriverCall::DeviceGetCount);
    let mut list = Cuda::start_device_list(0, 3).unwrap();
    let mut ordinal = 0;
    while let Some(call) = list.next_call() {
        assert_eq!(call, DriverCall::DeviceGet { ordinal });
        list = list.record(0, 100 + ordinal).unwrap();
        ordinal += 1;
    }
    assert!(list.is_complete());
    let devices = list.finish();
    assert_eq!(devices.len(), 3);
    let handles: Vec<i32> = devices.iter().map(|d| d.handle).collect();
    assert_eq!(handles, vec![100, 101, 102]);
}

#[test]
fn enumeration_of_no_devices() {
    let list = Cuda::start_device_list(0, 0).unwrap();
    assert!(list.next_call().is_none());
    assert!(list.finish().is_empty());
    let list = Cuda::start_device_list(0, -4).unwrap();
    assert!(list.next_call().is_none());
}

#[test]
fn enumeration_errors() {
    assert_eq!(Cuda::start_device_list(100, 0).err(), Some(ErrorCode::NoDevice));
    let list = Cuda::start_device_list(0, 2).unwrap();
    assert_eq!(list.record(101, 0).err(), Some(ErrorCode::InvalidDevice));
}

#[test]
fn device_name_stops_at_nul() {
    let d = Device { handle: 0 };
    assert_eq!(d.name_call(), DriverCall::DeviceGetName { capacity: DEVICE_NAME_CAPACITY, device: 0 });
    let mut buf = vec![0u8; 256];
    buf[..6].copy_from_slice(b"Tesla ");
    buf[6] = b'X';
    assert_eq!(d.name(0, &buf).unwrap(), "Tesla X");
    assert_eq!(d.name(0, b"no terminator").unwrap(), "");
    assert_eq!(d.name(0, b"\0abc").unwrap(), "");
    assert_eq!(d.name(0, b"GPU\xff\0").unwrap(), "GPU\u{fffd}");
    assert_eq!(d.name(1, &buf), Err(ErrorCode::InvalidValue));
}

#[test]
fn device_queries_carry_driver_numbers() {
    let d = Device { handle: 2 };
    assert_eq!(
        d.get_attribute(DeviceAttribute::MaxThreadsPerBlock),
        DriverCall::DeviceGetAttribute { attribute: 1, device: 2 }
    );
    assert_eq!(
        d.get_attribute(DeviceAttribute::MempoolSupportedHandleTypes),
        DriverCall::DeviceGetAttribute { attribute: 119, device: 2 }
    );
    assert_eq!(
        d.get_texture_1d_linear_max_width(CudaArrayFormat::Nv12, 4),
        DriverCall::DeviceGetTexture1DLinearMaxWidth { format: 0xb0, channels: 4, device: 2 }
    );
    assert_eq!(d.uuid(), DriverCall::DeviceGetUuid { device: 2 });
    assert_eq!(d.memory_size(), DriverCall::DeviceTotalMem { device: 2 });
}

#[test]
fn context_lifecycle_requests() {
    let d = Device { handle: 1 };
    assert_eq!(Context::new_call(&d), DriverCall::CtxCreate { flags: CTX_SCHED_BLOCKING_SYNC, device: 1 });
    assert_eq!(Context::new(2, 0).err(), Some(ErrorCode::OutOfMemory));
    let mut ctx = Context::new(0, 0xabc).unwrap();
    assert_eq!(ctx.as_raw(), 0xabc);
    assert_eq!(ctx.enter_call(), DriverCall::CtxSetCurrent { context: 0xabc });
    assert_eq!(ctx.get_limit(LimitType::PersistingL2CacheSize), DriverCall::CtxGetLimit { limit: 6 });
    assert_eq!(
        ctx.set_limit(LimitType::MallocHeapSize, 1 << 20),
        DriverCall::CtxSetLimit { limit: 2, value: 1 << 20 }
    );
    assert_eq!(ctx.version(0, 11020).unwrap().into_pair(), (11, 2));
    {
        let handle = ctx.enter(0).unwrap();
        assert_eq!(handle.context().as_raw(), 0xabc);
        assert_eq!(handle.exit_call(), DriverCall::CtxSetCurrent { context: 0 });
    }
    assert_eq!(ctx.enter(201).err(), Some(ErrorCode::InvalidContext));
    assert_eq!(ctx.destroy_call(), DriverCall::CtxDestroy { context: 0xabc });
}

#[test]
fn initialisation_happens_once() {
    let mut state = InitState { done: false };
    assert_eq!(Cuda::init_call(&state), Some(DriverCall::Init { flags: 0 }));
    assert_eq!(Cuda::init(&mut state, 3), Err(ErrorCode::NotInitialized));
    assert!(!state.done);
    assert_eq!(Cuda::init(&mut state, 0), Ok(()));
    assert!(state.done);
    assert_eq!(Cuda::init_call(&state), None);
}

#[test]
fn whole_enumeration_from_answers() {
    let devices = Cuda::list_devices(0, 3, &[0, 0, 0], &[7, 9, 11]).unwrap();
    let handles: Vec<i32> = devices.iter().map(|d| d.handle).collect();
    assert_eq!(handles, vec![7, 9, 11]);
    assert!(Cuda::list_devices(0, 0, &[], &[]).unwrap().is_empty());
    assert!(Cuda::list_devices(0, -1, &[], &[]).unwrap().is_empty());
    assert_eq!(Cuda::list_devices(3, 0, &[], &[]).err(), Some(ErrorCode::NotInitialized));
    assert_eq!(Cuda::list_devices(0, 3, &[0, 101, 2], &[7, 0, 0]).err(), Some(ErrorCode::InvalidDevice));
}
