use std::rc::Rc;

use vstd::prelude::*;
use vstd::string::StringSliceAdditionalSpecFns;

use crate::context::Handle;
use crate::driver::{before_nul, complete, join_lines, split_lines, text_before_nul, to_c_string, views_of, DriverCall};
use crate::error::{cuda_error, error_of, CudaResult, ErrorCode};
use crate::func::Function;
use crate::mem::{DeviceRange, DevicePtr};
use crate::version::CudaVersion;

verus! {

/// The size of each log buffer that a link session fills, when asked for.
pub const LOG_BUFFER_BYTES: u32 = 16 * 1024 * 1024;

/// The kind of an input to the linker.
#[derive(Debug, Clone, Copy, PartialEq, Eq, Structural)]
pub enum LinkerInputType {
    Cubin,
    Ptx,
    Fatbin,
}

impl LinkerInputType {
    /// The driver's number for this kind of input.
    pub open spec fn spec_code(self) -> u32 {
        match self {
            LinkerInputType::Cubin => 0,
            LinkerInputType::Ptx => 1,
            LinkerInputType::Fatbin => 2,
        }
    }

    /// The driver's number for this kind of input.
    pub fn code(&self) -> (r: u32)
        ensures
            r == self.spec_code(),
    {
        match self {
            LinkerInputType::Cubin => 0,
            LinkerInputType::Ptx => 1,
            LinkerInputType::Fatbin => 2,
        }
    }
}

/// What a link session collects and emits.
#[derive(Debug, Clone, Copy, PartialEq, Eq, Structural)]
pub struct LinkerOptions {
    /// Add debug symbols to the binary.
    pub debug_info: bool,
    /// Collect informational logs.
    pub log_info: bool,
    /// Collect error logs.
    pub log_errors: bool,
    /// Make the logs verbose.
    pub verbose_logs: bool,
}

impl Default for LinkerOptions {
    /// Both logs collected, no debug symbols, terse logs.
    fn default() -> (r: LinkerOptions)
        ensures
            r == (LinkerOptions { debug_info: false, log_info: true, log_errors: true, verbose_logs: false }),
    {
        LinkerOptions { debug_info: false, log_info: true, log_errors: true, verbose_logs: false }
    }
}

/// The compute capabilities that the linker can target.
pub open spec fn supported_target(major: u32, minor: u32) -> bool {
    ||| (major == 2 && (minor == 0 || minor == 1))
    ||| (major == 3 && (minor == 0 || minor == 2 || minor == 5 || minor == 7))
    ||| (major == 5 && (minor == 0 || minor == 2 || minor == 3))
    ||| (major == 6 && (minor == 0 || minor == 1 || minor == 2))
    ||| (major == 7 && (minor == 0 || minor == 2 || minor == 5))
    ||| (major == 8 && (minor == 0 || minor == 6))
}

/// The driver's number for a supported target: ten times the major
/// version plus the minor one.
pub open spec fn target_code(major: u32, minor: u32) -> u32 {
    (major * 10 + minor) as u32
}

/// The driver's number for the target of compute capability `cc`, if it is
/// supported.
pub fn jit_target(cc: CudaVersion) -> (r: Option<u32>)
    ensures
        supported_target(cc.major, cc.minor) <==> r is Some,
        r matches Some(t) ==> t == target_code(cc.major, cc.minor),
{
    match (cc.major, cc.minor) {
        (2, 0) => Some(20),
        (2, 1) => Some(21),
        (3, 0) => Some(30),
        (3, 2) => Some(32),
        (3, 5) => Some(35),
        (3, 7) => Some(37),
        (5, 0) => Some(50),
        (5, 2) => Some(52),
        (5, 3) => Some(53),
        (6, 0) => Some(60),
        (6, 1) => Some(61),
        (6, 2) => Some(62),
        (7, 0) => Some(70),
        (7, 2) => Some(72),
        (7, 5) => Some(75),
        (8, 0) => Some(80),
        (8, 6) => Some(86),
        _ => None,
    }
}

/// The session a linker opens for the given options and target.
pub open spec fn link_create(options: LinkerOptions, target: u32) -> DriverCall {
    DriverCall::LinkCreate {
        info_log_bytes: if options.log_info { LOG_BUFFER_BYTES } else { 0 },
        error_log_bytes: if options.log_errors { LOG_BUFFER_BYTES } else { 0 },
        target,
        verbose: if options.verbose_logs { 1 } else { 0 },
        debug_info: if options.debug_info { 1 } else { 0 },
    }
}

/// The input that the driver reads: PTX text gets a closing NUL.
pub open spec fn link_input(format: LinkerInputType, data: Seq<u8>) -> Seq<u8> {
    if format == LinkerInputType::Ptx {
        data.push(0u8)
    } else {
        data
    }
}

/// A JIT link session: inputs are added to it, then it is finished into a
/// binary image. It owns the buffers that the driver writes its logs to.
/// It is built before the driver opens it (its native handle is zero until
/// then), so that the driver writes into the buffers it owns.
pub struct Linker<'a> {
    inner: u64,
    target: u32,
    options: LinkerOptions,
    info_buf: Vec<u8>,
    errors_buf: Vec<u8>,
    handle: Rc<Handle<'a>>,
}

impl<'a> Linker<'a> {
    /// The session's native handle; zero before the driver opened it.
    pub closed spec fn raw(&self) -> u64 {
        self.inner
    }

    /// The request that opens this session.
    pub closed spec fn spec_create(&self) -> DriverCall {
        link_create(self.options, self.target)
    }

    /// The informational log buffer.
    pub closed spec fn info_log(&self) -> Seq<u8> {
        self.info_buf@
    }

    /// The error log buffer.
    pub closed spec fn error_log(&self) -> Seq<u8> {
        self.errors_buf@
    }

    /// The handle of the context that the session works in.
    pub closed spec fn spec_handle(&self) -> Rc<Handle<'a>> {
        self.handle
    }

    /// A session for `compute_capability`, not yet opened, with a zeroed log
    /// buffer of the full size for each log that `options` collects. An
    /// unsupported capability fails with `UnsupportedPtxVersion`, and then
    /// there is no session to open.
    pub fn new(handle: &Rc<Handle<'a>>, compute_capability: CudaVersion, options: LinkerOptions) -> (r: CudaResult<Linker<'a>>)
        ensures
            supported_target(compute_capability.major, compute_capability.minor) <==> r is Ok,
            r matches Err(e) ==> e == ErrorCode::UnsupportedPtxVersion,
            r matches Ok(l) ==> l.raw() == 0 && l.spec_handle() == *handle
                && l.spec_create() == link_create(
                    options,
                    target_code(compute_capability.major, compute_capability.minor),
                )
                && l.info_log().len() == (if options.log_info { LOG_BUFFER_BYTES as nat } else { 0 })
                && l.error_log().len() == (if options.log_errors { LOG_BUFFER_BYTES as nat } else { 0 })
                && (forall|i: int| 0 <= i < l.info_log().len() ==> l.info_log()[i] == 0)
                && (forall|i: int| 0 <= i < l.error_log().len() ==> l.error_log()[i] == 0),
    {
        let target = match jit_target(compute_capability) {
            Some(t) => t,
            None => return Err(ErrorCode::UnsupportedPtxVersion),
        };
        let info_buf: Vec<u8> = if options.log_info {
            vec![0u8; LOG_BUFFER_BYTES as usize]
        } else {
            Vec::new()
        };
        let errors_buf: Vec<u8> = if options.log_errors {
            vec![0u8; LOG_BUFFER_BYTES as usize]
        } else {
            Vec::new()
        };
        Ok(Linker { inner: 0, target, options, info_buf, errors_buf, handle: handle.clone() })
    }

    /// The request that opens the session; the driver writes its logs into
    /// `log_buffers`.
    pub fn create_call(&self) -> (r: DriverCall)
        ensures
            r == self.spec_create(),
    {
        let options = self.options;
        DriverCall::LinkCreate {
            info_log_bytes: if options.log_info { LOG_BUFFER_BYTES } else { 0 },
            error_log_bytes: if options.log_errors { LOG_BUFFER_BYTES } else { 0 },
            target: self.target,
            verbose: if options.verbose_logs { 1 } else { 0 },
            debug_info: if options.debug_info { 1 } else { 0 },
        }
    }

    /// The opened session, from the driver's answer to `create_call`.
    pub fn created(self, status: u32, raw: u64) -> (r: CudaResult<Linker<'a>>)
        ensures
            status == 0 <==> r is Ok,
            r matches Ok(l) ==> l.raw() == raw && l.spec_handle() == self.spec_handle()
                && l.spec_create() == self.spec_create() && l.info_log() == self.info_log()
                && l.error_log() == self.error_log(),
            r matches Err(e) ==> e == error_of(status),
    {
        cuda_error(status)?;
        let mut l = self;
        l.inner = raw;
        Ok(l)
    }

    /// The session's native handle.
    pub fn as_raw(&self) -> (r: u64)
        ensures
            r == self.raw(),
    {
        self.inner
    }

    /// The handle of the context that the session works in.
    pub fn handle(&self) -> (r: &Rc<Handle<'a>>)
        ensures
            *r == self.spec_handle(),
    {
        &self.handle
    }

    /// The log buffers, for the driver to write into: informational first.
    pub fn log_buffers(&mut self) -> (r: (&mut Vec<u8>, &mut Vec<u8>))
        ensures
            r.0@ == old(self).info_log(),
            r.1@ == old(self).error_log(),
            final(self).raw() == old(self).raw(),
            final(self).spec_handle() == old(self).spec_handle(),
            final(self).spec_create() == old(self).spec_create(),
            final(self).info_log() == final(r.0)@,
            final(self).error_log() == final(r.1)@,
    {
        (&mut self.info_buf, &mut self.errors_buf)
    }

    /// The lines of the collected logs, informational ones first: each log
    /// is read up to its first NUL and split at newlines.
    pub fn log_lines(&self) -> (r: (Vec<Vec<u8>>, Vec<Vec<u8>>))
        ensures
            join_lines(views_of(r.0@)) == before_nul(self.info_log()),
            join_lines(views_of(r.1@)) == before_nul(self.error_log()),
            before_nul(self.info_log()).len() == 0 ==> r.0@.len() == 0,
            before_nul(self.error_log()).len() == 0 ==> r.1@.len() == 0,
            forall|i: int| 0 <= i < r.0@.len() ==> !(#[trigger] r.0@[i]@).contains(10u8),
            forall|i: int| 0 <= i < r.1@.len() ==> !(#[trigger] r.1@[i]@).contains(10u8),
    {
        let info = text_before_nul(self.info_buf.as_slice());
        let errors = text_before_nul(self.errors_buf.as_slice());
        let a = split_lines(info.as_slice());
        let b = split_lines(errors.as_slice());
        proof {
            if info@.len() == 0 {
                assert(views_of(a@) =~= Seq::<Seq<u8>>::empty());
            }
            if errors@.len() == 0 {
                assert(views_of(b@) =~= Seq::<Seq<u8>>::empty());
            }
        }
        (a, b)
    }

    /// The request that adds `in_data` under `name` (which the logs use); a
    /// PTX text gets a closing NUL. The session is handed on, to chain adds.
    pub fn add(self, name: &str, format: LinkerInputType, in_data: &[u8]) -> (r: (Linker<'a>, DriverCall))
        requires
            !name.spec_bytes().contains(0u8),
        ensures
            r.0 == self,
            r.1 matches DriverCall::LinkAddData { link, input_type, data, name: n }
                && link == self.raw() && input_type == format.spec_code()
                && data@ == link_input(format, in_data@) && n@ == name.spec_bytes().push(0u8),
    {
        let mut data: Vec<u8> = crate::mem::copy_bytes(in_data);
        if format == LinkerInputType::Ptx {
            data.push(0);
        }
        let n = to_c_string(name.as_bytes());
        let c = DriverCall::LinkAddData { link: self.inner, input_type: format.code(), data, name: n };
        (self, c)
    }

    /// The request that finishes linking into a binary image.
    pub fn build_call(&self) -> (r: DriverCall)
        ensures
            r == (DriverCall::LinkComplete { link: self.raw() }),
    {
        DriverCall::LinkComplete { link: self.inner }
    }

    /// The image, from the driver's answer to `build_call`.
    pub fn build(&self, status: u32, image: Vec<u8>) -> (r: CudaResult<Vec<u8>>)
        ensures
            status == 0 <==> r is Ok,
            r matches Ok(v) ==> v@ == image@,
            r matches Err(e) ==> e == error_of(status),
    {
        complete(status, image)
    }

    /// From the driver's answer to `build_call`, the request that loads the
    /// image as a module.
    pub fn build_module(&self, status: u32, image: Vec<u8>) -> (r: CudaResult<DriverCall>)
        ensures
            status == 0 <==> r is Ok,
            r matches Ok(c) ==> (c matches DriverCall::ModuleLoadData { image: i } && i@ == image@),
            r matches Err(e) ==> e == error_of(status),
    {
        let built = self.build(status, image)?;
        Ok(Module::load_call(built.as_slice()))
    }

    /// The request that closes the session; it consumes the session.
    pub fn destroy_call(self) -> (r: DriverCall)
        ensures
            r == (DriverCall::LinkDestroy { link: self.raw() }),
    {
        DriverCall::LinkDestroy { link: self.inner }
    }
}

/// A binary image loaded into a context.
pub struct Module<'a> {
    handle: Rc<Handle<'a>>,
    inner: u64,
}

impl<'a> Module<'a> {
    /// The module's native handle.
    pub closed spec fn raw(&self) -> u64 {
        self.inner
    }

    /// The handle of the context that the module is loaded in.
    pub closed spec fn spec_handle(&self) -> Rc<Handle<'a>> {
        self.handle
    }

    /// The request that loads a cubin, PTX or fatbin image.
    pub fn load_call(module: &[u8]) -> (r: DriverCall)
        ensures
            r matches DriverCall::ModuleLoadData { image } && image@ == module@,
    {
        DriverCall::ModuleLoadData { image: crate::mem::copy_bytes(module) }
    }

    /// The request that loads a fat binary.
    pub fn load_fatcubin_call(module: &[u8]) -> (r: DriverCall)
        ensures
            r matches DriverCall::ModuleLoadFatBinary { image } && image@ == module@,
    {
        DriverCall::ModuleLoadFatBinary { image: crate::mem::copy_bytes(module) }
    }

    /// The module, from the driver's answer to `load_call` or
    /// `load_fatcubin_call`.
    pub fn load(handle: &Rc<Handle<'a>>, status: u32, raw: u64) -> (r: CudaResult<Module<'a>>)
        ensures
            status == 0 <==> r is Ok,
            r matches Ok(m) ==> m.raw() == raw && m.spec_handle() == *handle,
            r matches Err(e) ==> e == error_of(status),
    {
        complete(status, Module { handle: handle.clone(), inner: raw })
    }

    /// The module's native handle.
    pub fn as_raw(&self) -> (r: u64)
        ensures
            r == self.raw(),
    {
        self.inner
    }

    /// The request that resolves the kernel `name`.
    pub fn get_function_call(&self, name: &str) -> (r: DriverCall)
        requires
            !name.spec_bytes().contains(0u8),
        ensures
            r matches DriverCall::ModuleGetFunction { module, name: n } && module == self.raw()
                && n@ == name.spec_bytes().push(0u8),
    {
        DriverCall::ModuleGetFunction { module: self.inner, name: to_c_string(name.as_bytes()) }
    }

    /// The kernel, from the driver's answer to `get_function_call`; it
    /// borrows the module.
    pub fn get_function<'b>(&'b self, status: u32, raw: u64) -> (r: CudaResult<Function<'a, 'b>>)
        ensures
            status == 0 <==> r is Ok,
            r matches Ok(f) ==> f.raw() == raw && f.spec_module() == self,
            r matches Err(e) ==> e == error_of(status),
    {
        cuda_error(status)?;
        Ok(Function::from_raw(self, raw))
    }

    /// The request that resolves the global symbol `name`.
    pub fn get_global_call(&self, name: &str) -> (r: DriverCall)
        requires
            !name.spec_bytes().contains(0u8),
        ensures
            r matches DriverCall::ModuleGetGlobal { module, name: n } && module == self.raw()
                && n@ == name.spec_bytes().push(0u8),
    {
        DriverCall::ModuleGetGlobal { module: self.inner, name: to_c_string(name.as_bytes()) }
    }

    /// The symbol's memory, from the driver's answer to `get_global_call`:
    /// its address and size.
    pub fn get_global(&self, status: u32, addr: u64, size: u64) -> (r: CudaResult<DevicePtr<'a>>)
        requires
            status == 0 ==> addr + size <= u64::MAX,
        ensures
            status == 0 <==> r is Ok,
            r matches Ok(p) ==> p@ == (DeviceRange {
                context: self.spec_handle().spec_context().raw(),
                addr: addr as int,
                len: size as nat,
            }) && p.spec_handle() == self.spec_handle(),
            r matches Err(e) ==> e == error_of(status),
    {
        cuda_error(status)?;
        Ok(DevicePtr::from_raw_parts(self.handle.clone(), addr, size))
    }

    /// The request that unloads the module; it consumes the module.
    pub fn unload_call(self) -> (r: DriverCall)
        ensures
            r == (DriverCall::ModuleUnload { module: self.raw() }),
    {
        DriverCall::ModuleUnload { module: self.inner }
    }
}

} // verus!
