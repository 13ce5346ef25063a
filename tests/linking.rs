use cuda_oxide::context::Context;
use cuda_oxide::driver::{split_lines, DriverCall};
use cuda_oxide::error::ErrorCode;
use cuda_oxide::func::{FuncCache, FuncSharedConfig, FunctionAttribute};
use cuda_oxide::module::{jit_target, Linker, LinkerInputType, LinkerOptions, Module, LOG_BUFFER_BYTES};
use cuda_oxide::version::CudaVersion;

#[test]
fn unsupported_capability_is_refused_before_linking() {
    let mut ctx = Context::new(0, 1).unwrap();
    let handle = ctx.enter(0).unwrap();
    let opts = LinkerOptions::default();
    assert_eq!(Linker::new(&handle, CudaVersion::from_pair(9, 0), opts).err(), Some(ErrorCode::UnsupportedPtxVersion));
    assert_eq!(Linker::new(&handle, CudaVersion::from_pair(3, 1), opts).err(), Some(ErrorCode::UnsupportedPtxVersion));
    assert_eq!(jit_target(CudaVersion::from_pair(8, 7)), None);
}

#[test]
fn supported_capabilities_map_to_targets() {
    let mut ctx = Context::new(0, 1).unwrap();
    let handle = ctx.enter(0).unwrap();
    assert_eq!(jit_target(CudaVersion::from_pair(2, 0)), Some(20));
    assert_eq!(jit_target(CudaVersion::from_pair(7, 5)), Some(75));
    assert_eq!(jit_target(CudaVersion::from_pair(8, 6)), Some(86));
    let opts = LinkerOptions { debug_info: true, log_info: false, log_errors: true, verbose_logs: true };
    let linker = Linker::new(&handle, CudaVersion::from_pair(6, 1), opts).unwrap();
    assert_eq!(linker.as_raw(), 0);
    assert_eq!(
        linker.create_call(),
        DriverCall::LinkCreate {
            info_log_bytes: 0,
            error_log_bytes: LOG_BUFFER_BYTES,
            target: 61,
            verbose: 1,
            debug_info: 1,
        }
    );
    assert_eq!(linker.created(218, 0).err(), Some(ErrorCode::InvalidPtx));
}

#[test]
fn default_options_collect_both_logs() {
    let o = LinkerOptions::default();
    assert_eq!(o, LinkerOptions { debug_info: false, log_info: true, log_errors: true, verbose_logs: false });
}

#[test]
fn linker_session_and_inputs() {
    let mut ctx = Context::new(0, 1).unwrap();
    let handle = ctx.enter(0).unwrap();
    let opts = LinkerOptions { debug_info: false, log_info: false, log_errors: false, verbose_logs: false };
    let linker = Linker::new(&handle, CudaVersion::from_pair(7, 0), opts).unwrap().created(0, 0x33).unwrap();
    let (linker, call) = linker.add("k.ptx", LinkerInputType::Ptx, b".version 7.0");
    let mut ptx = b".version 7.0".to_vec();
    ptx.push(0);
    assert_eq!(call, DriverCall::LinkAddData { link: 0x33, input_type: 1, data: ptx, name: b"k.ptx\0".to_vec() });
    let (linker, call) = linker.add("k.cubin", LinkerInputType::Cubin, &[1, 2, 3]);
    assert_eq!(call, DriverCall::LinkAddData { link: 0x33, input_type: 0, data: vec![1, 2, 3], name: b"k.cubin\0".to_vec() });
    let (linker, call) = linker.add("f", LinkerInputType::Fatbin, &[]);
    assert_eq!(call, DriverCall::LinkAddData { link: 0x33, input_type: 2, data: vec![], name: b"f\0".to_vec() });
    assert_eq!(linker.build_call(), DriverCall::LinkComplete { link: 0x33 });
    assert_eq!(linker.build(0, vec![5, 6]), Ok(vec![5, 6]));
    assert_eq!(linker.build_module(0, vec![5, 6]), Ok(DriverCall::ModuleLoadData { image: vec![5, 6] }));
    assert_eq!(linker.build_module(218, vec![5, 6]), Err(ErrorCode::InvalidPtx));
    assert_eq!(linker.destroy_call(), DriverCall::LinkDestroy { link: 0x33 });
}

#[test]
fn logs_split_into_lines() {
    let mut ctx = Context::new(0, 1).unwrap();
    let handle = ctx.enter(0).unwrap();
    let mut linker = Linker::new(&handle, CudaVersion::from_pair(7, 0), LinkerOptions::default()).unwrap().created(0, 0x33).unwrap();
    {
        let (info, errors) = linker.log_buffers();
        assert_eq!(info.len(), LOG_BUFFER_BYTES as usize);
        info[..9].copy_from_slice(b"one\ntwo\n3");
        errors[..4].copy_from_slice(b"bad\n");
    }
    let (info, errors) = linker.log_lines();
    assert_eq!(info, vec![b"one".to_vec(), b"two".to_vec(), b"3".to_vec()]);
    assert_eq!(errors, vec![b"bad".to_vec(), vec![]]);
    let quiet = Linker::new(&handle, CudaVersion::from_pair(7, 0), LinkerOptions::default()).unwrap();
    let (info, errors) = quiet.log_lines();
    assert!(info.is_empty() && errors.is_empty());
}

#[test]
fn split_lines_edges() {
    assert!(split_lines(b"").is_empty());
    assert_eq!(split_lines(b"\n"), vec![vec![], vec![]]);
    assert_eq!(split_lines(b"a"), vec![b"a".to_vec()]);
    assert_eq!(split_lines(b"a\n\nb"), vec![b"a".to_vec(), vec![], b"b".to_vec()]);
}

#[test]
fn modules_resolve_kernels_and_globals() {
    let mut ctx = Context::new(0, 1).unwrap();
    let handle = ctx.enter(0).unwrap();
    assert_eq!(Module::load_call(&[1, 2]), DriverCall::ModuleLoadData { image: vec![1, 2] });
    assert_eq!(Module::load_fatcubin_call(&[3]), DriverCall::ModuleLoadFatBinary { image: vec![3] });
    assert_eq!(Module::load(&handle, 200, 0).err(), Some(ErrorCode::InvalidImage));
    let m = Module::load(&handle, 0, 0x44).unwrap();
    assert_eq!(m.get_function_call("matrixMul"), DriverCall::ModuleGetFunction { module: 0x44, name: b"matrixMul\0".to_vec() });
    assert_eq!(m.get_function(500, 0).err().is_some(), true);
    let mut f = m.get_function(0, 0x55).unwrap();
    assert_eq!(f.module().as_raw(), 0x44);
    assert_eq!(f.get_attribute(FunctionAttribute::NumRegs), DriverCall::FuncGetAttribute { attribute: 4, function: 0x55 });
    assert_eq!(
        f.set_attribute(FunctionAttribute::PreferredSharedMemoryCarveout, 50),
        DriverCall::FuncSetAttribute { function: 0x55, attribute: 9, value: 50 }
    );
    assert_eq!(f.set_cache_config(FuncCache::PreferL1), DriverCall::FuncSetCacheConfig { function: 0x55, config: 2 });
    assert_eq!(
        f.set_shared_mem_config(FuncSharedConfig::EightByteBankSize),
        DriverCall::FuncSetSharedMemConfig { function: 0x55, config: 2 }
    );
    assert_eq!(m.get_global_call("g"), DriverCall::ModuleGetGlobal { module: 0x44, name: b"g\0".to_vec() });
    let g = m.get_global(0, 0x7000, 24).unwrap();
    assert_eq!((g.as_raw(), g.len(), g.handle().context().as_raw()), (0x7000, 24, 1));
    assert_eq!(m.get_global(500, 0, 0).err().map(|e| e.code()), Some(500));
}
