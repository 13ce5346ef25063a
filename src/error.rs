use vstd::prelude::*;

verus! {

/// A status reported by the driver, or an error of this library's own.
#[derive(Debug, Clone, Copy, PartialEq, Eq, Structural)]
pub enum ErrorCode {
    /// The API call returned with no errors. In the case of query calls, this
    /// also means that the operation being queried is complete (see
    /// cuEventQuery() and cuStreamQuery()).
    Success,
    /// This indicates that one or more of the parameters passed to the API call
    /// is not within an acceptable range of values.
    InvalidValue,
    /// The API call failed because it was unable to allocate enough memory to
    /// perform the requested operation.
    OutOfMemory,
    /// This indicates that the CUDA driver has not been initialized with
    /// cuInit() or that initialization has failed.
    NotInitialized,
    /// This indicates that the CUDA driver is in the process of shutting down.
    Deinitialized,
    /// This indicates profiler is not initialized for this run. This can
    /// happen when the application is running with external profiling tools
    /// like visual profiler.
    ProfilerDisabled,
    /// Deprecated.
    /// This error return is deprecated as of CUDA 5.0. It is no longer an error
    /// to attempt to enable/disable the profiling via cuProfilerStart or
    /// cuProfilerStop without initialization.
    ProfilerNotInitialized,
    /// Deprecated.
    /// This error return is deprecated as of CUDA 5.0. It is no longer an error
    /// to call cuProfilerStart() when profiling is already enabled.
    ProfilerAlreadyStarted,
    /// Deprecated.
    /// This error return is deprecated as of CUDA 5.0. It is no longer an error
    /// to call cuProfilerStop() when profiling is already disabled.
    ProfilerAlreadyStopped,
    /// This indicates that the CUDA driver that the application has loaded is a
    /// stub library. Applications that run with the stub rather than a real
    /// driver loaded will result in CUDA API returning this error.
    StubLibrary,
    /// This indicates that no CUDA-capable devices were detected by the installed
    /// CUDA driver.
    NoDevice,
    /// This indicates that the device ordinal supplied by the user does not
    /// correspond to a valid CUDA device.
    InvalidDevice,
    /// This error indicates that the Grid license is not applied.
    DeviceNotLicensed,
    /// This indicates that the device kernel image is invalid. This can also
    /// indicate an invalid CUDA module.
    InvalidImage,
    /// This most frequently indicates that there is no context bound to the
    /// current thread. This can also be returned if the context passed to an
    /// API call is not a valid handle (such as a context that has had
    /// cuCtxDestroy() invoked on it). This can also be returned if a user
    /// mixes different API versions (i.e. 3010 context with 3020 API calls).
    /// See cuCtxGetApiVersion() for more details.
    InvalidContext,
    /// This indicated that the context being supplied as a parameter to the
    /// API call was already the active context.
    /// Deprecated.
    /// This error return is deprecated as of CUDA 3.2. It is no longer an
    /// error to attempt to push the active context via cuCtxPushCurrent().
    ContextAlreadyCurrent,
    /// This indicates that a map or register operation has failed.
    MapFailed,
    /// This indicates that an unmap or unregister operation has failed.
    UnmapFailed,
    /// This indicates that the specified array is currently mapped and thus
    /// cannot be destroyed.
    ArrayIsMapped,
    /// This indicates that the resource is already mapped.
    AlreadyMapped,
    /// This indicates that there is no kernel image available that is suitable
    /// for the device. This can occur when a user specifies code generation
    /// options for a particular CUDA source file that do not include the
    /// corresponding device configuration.
    NoBinaryForGpu,
    /// This indicates that a resource has already been acquired.
    AlreadyAcquired,
    /// This indicates that a resource is not mapped.
    NotMapped,
    /// This indicates that a mapped resource is not available for access as an
    /// array.
    NotMappedAsArray,
    /// This indicates that a mapped resource is not available for access as a
    /// pointer.
    NotMappedAsPointer,
    /// This indicates that an uncorrectable ECC error was detected during
    /// execution.
    EccUncorrectable,
    /// This indicates that the CUlimit passed to the API call is not
    /// supported by the active device.
    UnsupportedLimit,
    /// This indicates that the CUcontext passed to the API call can
    /// only be bound to a single CPU thread at a time but is already
    /// bound to a CPU thread.
    ContextAlreadyInUse,
    /// This indicates that peer access is not supported across the given
    /// devices.
    PeerAccessUnsupported,
    /// This indicates that a PTX JIT compilation failed.
    InvalidPtx,
    /// This indicates an error with OpenGL or DirectX context.
    InvalidGraphicsContext,
    /// This indicates that an uncorrectable NVLink error was detected during the
    /// execution.
    NvlinkUncorrectable,
    /// This indicates that the PTX JIT compiler library was not found.
    JitCompilerNotFound,
    /// This indicates that the provided PTX was compiled with an unsupported toolchain.
    UnsupportedPtxVersion,
    /// This indicates that the PTX JIT compilation was disabled.
    JitCompilationDisabled,
    /// This indicates that the device kernel source is invalid.
    InvalidSource,
    /// This indicates that the file specified was not found.
    FileNotFound,
    /// This indicates that a link to a shared object failed to resolve.
    SharedObjectSymbolNotFound,
    /// This indicates that initialization of a shared object failed.
    SharedObjectInitFailed,
    /// This indicates that an OS call failed.
    OperatingSystem,
    /// This indicates that a resource handle passed to the API call was not
    /// valid. Resource handles are opaque types like CUstream and CUevent.
    InvalidHandle,
    /// This indicates that a resource required by the API call is not in a
    /// valid state to perform the requested operation.
    IllegalState,
    /// This indicates that a named symbol was not found. Examples of symbols
    /// are global/constant variable names, driver function names, texture names,
    /// and surface names.
    NotFound,
    /// This indicates that asynchronous operations issued previously have not
    /// completed yet. This result is not actually an error, but must be indicated
    /// differently than CUDA_SUCCESS (which indicates completion). Calls that
    /// may return this value include cuEventQuery() and cuStreamQuery().
    NotReady,
    /// While executing a kernel, the device encountered a
    /// load or store instruction on an invalid memory address.
    /// This leaves the process in an inconsistent state and any further CUDA work
    /// will return the same error. To continue using CUDA, the process must be terminated
    /// and relaunched.
    IllegalAddress,
    /// This indicates that a launch did not occur because it did not have
    /// appropriate resources. This error usually indicates that the user has
    /// attempted to pass too many arguments to the device kernel, or the
    /// kernel launch specifies too many threads for the kernel's register
    /// count. Passing arguments of the wrong size (i.e. a 64-bit pointer
    /// when a 32-bit int is expected) is equivalent to passing too many
    /// arguments and can also result in this error.
    LaunchOutOfResources,
    /// This indicates that the device kernel took too long to execute. This can
    /// only occur if timeouts are enabled - see the device attribute
    /// CU_DEVICE_ATTRIBUTE_KERNEL_EXEC_TIMEOUT for more information.
    /// This leaves the process in an inconsistent state and any further CUDA work
    /// will return the same error. To continue using CUDA, the process must be terminated
    /// and relaunched.
    LaunchTimeout,
    /// This error indicates a kernel launch that uses an incompatible texturing
    /// mode.
    LaunchIncompatibleTexturing,
    /// This error indicates that a call to cuCtxEnablePeerAccess() is
    /// trying to re-enable peer access to a context which has already
    /// had peer access to it enabled.
    PeerAccessAlreadyEnabled,
    /// This error indicates that cuCtxDisablePeerAccess() is
    /// trying to disable peer access which has not been enabled yet
    /// via cuCtxEnablePeerAccess().
    PeerAccessNotEnabled,
    /// This error indicates that the primary context for the specified device
    /// has already been initialized.
    PrimaryContextActive,
    /// This error indicates that the context current to the calling thread
    /// has been destroyed using cuCtxDestroy, or is a primary context which
    /// has not yet been initialized.
    ContextIsDestroyed,
    /// A device-side assert triggered during kernel execution. The context
    /// cannot be used anymore, and must be destroyed. All existing device
    /// memory allocations from this context are invalid and must be
    /// reconstructed if the program is to continue using CUDA.
    Assert,
    /// This error indicates that the hardware resources required to enable
    /// peer access have been exhausted for one or more of the devices
    /// passed to cuCtxEnablePeerAccess().
    TooManyPeers,
    /// This error indicates that the memory range passed to cuMemHostRegister()
    /// has already been registered.
    HostMemoryAlreadyRegistered,
    /// This error indicates that the pointer passed to cuMemHostUnregister()
    /// does not correspond to any currently registered memory region.
    HostMemoryNotRegistered,
    /// While executing a kernel, the device encountered a stack error.
    /// This can be due to stack corruption or exceeding the stack size limit.
    /// This leaves the process in an inconsistent state and any further CUDA work
    /// will return the same error. To continue using CUDA, the process must be terminated
    /// and relaunched.
    HardwareStackError,
    /// While executing a kernel, the device encountered an illegal instruction.
    /// This leaves the process in an inconsistent state and any further CUDA work
    /// will return the same error. To continue using CUDA, the process must be terminated
    /// and relaunched.
    IllegalInstruction,
    /// While executing a kernel, the device encountered a load or store instruction
    /// on a memory address which is not aligned.
    /// This leaves the process in an inconsistent state and any further CUDA work
    /// will return the same error. To continue using CUDA, the process must be terminated
    /// and relaunched.
    MisalignedAddress,
    /// While executing a kernel, the device encountered an instruction
    /// which can only operate on memory locations in certain address spaces
    /// (global, shared, or local), but was supplied a memory address not
    /// belonging to an allowed address space.
    /// This leaves the process in an inconsistent state and any further CUDA work
    /// will return the same error. To continue using CUDA, the process must be terminated
    /// and relaunched.
    InvalidAddressSpace,
    /// While executing a kernel, the device program counter wrapped its address space.
    /// This leaves the process in an inconsistent state and any further CUDA work
    /// will return the same error. To continue using CUDA, the process must be terminated
    /// and relaunched.
    InvalidPc,
    /// An exception occurred on the device while executing a kernel. Common
    /// causes include dereferencing an invalid device pointer and accessing
    /// out of bounds shared memory. Less common cases can be system specific - more
    /// information about these cases can be found in the system specific user guide.
    /// This leaves the process in an inconsistent state and any further CUDA work
    /// will return the same error. To continue using CUDA, the process must be terminated
    /// and relaunched.
    LaunchFailed,
    /// This error indicates that the number of blocks launched per grid for a kernel that was
    /// launched via either cuLaunchCooperativeKernel or cuLaunchCooperativeKernelMultiDevice
    /// exceeds the maximum number of blocks as allowed by cuOccupancyMaxActiveBlocksPerMultiprocessor
    /// or cuOccupancyMaxActiveBlocksPerMultiprocessorWithFlags times the number of multiprocessors
    /// as specified by the device attribute CU_DEVICE_ATTRIBUTE_MULTIPROCESSOR_COUNT.
    CooperativeLaunchTooLarge,
    /// This error indicates that the attempted operation is not permitted.
    NotPermitted,
    /// This error indicates that the attempted operation is not supported
    /// on the current system or device.
    NotSupported,
    /// This error indicates that the system is not yet ready to start any CUDA
    /// work.  To continue using CUDA, verify the system configuration is in a
    /// valid state and all required driver daemons are actively running.
    /// More information about this error can be found in the system specific
    /// user guide.
    SystemNotReady,
    /// This error indicates that there is a mismatch between the versions of
    /// the display driver and the CUDA driver. Refer to the compatibility documentation
    /// for supported versions.
    SystemDriverMismatch,
    /// This error indicates that the system was upgraded to run with forward compatibility
    /// but the visible hardware detected by CUDA does not support this configuration.
    /// Refer to the compatibility documentation for the supported hardware matrix or ensure
    /// that only supported hardware is visible during initialization via the CUDA_VISIBLE_DEVICES
    /// environment variable.
    CompatNotSupportedOnDevice,
    /// This error indicates that the operation is not permitted when
    /// the stream is capturing.
    StreamCaptureUnsupported,
    /// This error indicates that the current capture sequence on the stream
    /// has been invalidated due to a previous error.
    StreamCaptureInvalidated,
    /// This error indicates that the operation would have resulted in a merge
    /// of two independent capture sequences.
    StreamCaptureMerge,
    /// This error indicates that the capture was not initiated in this stream.
    StreamCaptureUnmatched,
    /// This error indicates that the capture sequence contains a fork that was
    /// not joined to the primary stream.
    StreamCaptureUnjoined,
    /// This error indicates that a dependency would have been created which
    /// crosses the capture sequence boundary. Only implicit in-stream ordering
    /// dependencies are allowed to cross the boundary.
    StreamCaptureIsolation,
    /// This error indicates a disallowed implicit dependency on a current capture
    /// sequence from cudaStreamLegacy.
    StreamCaptureImplicit,
    /// This error indicates that the operation is not permitted on an event which
    /// was last recorded in a capturing stream.
    CapturedEvent,
    /// A stream capture sequence not initiated with the CU_STREAM_CAPTURE_MODE_RELAXED
    /// argument to cuStreamBeginCapture was passed to cuStreamEndCapture in a
    /// different thread.
    StreamCaptureWrongThread,
    /// This error indicates that the timeout specified for the wait operation has lapsed.
    Timeout,
    /// This error indicates that the graph update was not performed because it included
    /// changes which violated constraints specific to instantiated graph update.
    GraphExecUpdateFailure,
    /// This indicates that an unknown internal error has occurred.
    Unknown,
}

impl ErrorCode {
    /// The driver's number for this value.
    pub open spec fn spec_code(self) -> u32 {
        match self {
            ErrorCode::Success => 0,
            ErrorCode::InvalidValue => 1,
            ErrorCode::OutOfMemory => 2,
            ErrorCode::NotInitialized => 3,
            ErrorCode::Deinitialized => 4,
            ErrorCode::ProfilerDisabled => 5,
            ErrorCode::ProfilerNotInitialized => 6,
            ErrorCode::ProfilerAlreadyStarted => 7,
            ErrorCode::ProfilerAlreadyStopped => 8,
            ErrorCode::StubLibrary => 34,
            ErrorCode::NoDevice => 100,
            ErrorCode::InvalidDevice => 101,
            ErrorCode::DeviceNotLicensed => 102,
            ErrorCode::InvalidImage => 200,
            ErrorCode::InvalidContext => 201,
            ErrorCode::ContextAlreadyCurrent => 202,
            ErrorCode::MapFailed => 205,
            ErrorCode::UnmapFailed => 206,
            ErrorCode::ArrayIsMapped => 207,
            ErrorCode::AlreadyMapped => 208,
            ErrorCode::NoBinaryForGpu => 209,
            ErrorCode::AlreadyAcquired => 210,
            ErrorCode::NotMapped => 211,
            ErrorCode::NotMappedAsArray => 212,
            ErrorCode::NotMappedAsPointer => 213,
            ErrorCode::EccUncorrectable => 214,
            ErrorCode::UnsupportedLimit => 215,
            ErrorCode::ContextAlreadyInUse => 216,
            ErrorCode::PeerAccessUnsupported => 217,
            ErrorCode::InvalidPtx => 218,
            ErrorCode::InvalidGraphicsContext => 219,
            ErrorCode::NvlinkUncorrectable => 220,
            ErrorCode::JitCompilerNotFound => 221,
            ErrorCode::UnsupportedPtxVersion => 222,
            ErrorCode::JitCompilationDisabled => 223,
            ErrorCode::InvalidSource => 300,
            ErrorCode::FileNotFound => 301,
            ErrorCode::SharedObjectSymbolNotFound => 302,
            ErrorCode::SharedObjectInitFailed => 303,
            ErrorCode::OperatingSystem => 304,
            ErrorCode::InvalidHandle => 400,
            ErrorCode::IllegalState => 401,
            ErrorCode::NotFound => 500,
            ErrorCode::NotReady => 600,
            ErrorCode::IllegalAddress => 700,
            ErrorCode::LaunchOutOfResources => 701,
            ErrorCode::LaunchTimeout => 702,
            ErrorCode::LaunchIncompatibleTexturing => 703,
            ErrorCode::PeerAccessAlreadyEnabled => 704,
            ErrorCode::PeerAccessNotEnabled => 705,
            ErrorCode::PrimaryContextActive => 708,
            ErrorCode::ContextIsDestroyed => 709,
            ErrorCode::Assert => 710,
            ErrorCode::TooManyPeers => 711,
            ErrorCode::HostMemoryAlreadyRegistered => 712,
            ErrorCode::HostMemoryNotRegistered => 713,
            ErrorCode::HardwareStackError => 714,
            ErrorCode::IllegalInstruction => 715,
            ErrorCode::MisalignedAddress => 716,
            ErrorCode::InvalidAddressSpace => 717,
            ErrorCode::InvalidPc => 718,
            ErrorCode::LaunchFailed => 719,
            ErrorCode::CooperativeLaunchTooLarge => 720,
            ErrorCode::NotPermitted => 800,
            ErrorCode::NotSupported => 801,
            ErrorCode::SystemNotReady => 802,
            ErrorCode::SystemDriverMismatch => 803,
            ErrorCode::CompatNotSupportedOnDevice => 804,
            ErrorCode::StreamCaptureUnsupported => 900,
            ErrorCode::StreamCaptureInvalidated => 901,
            ErrorCode::StreamCaptureMerge => 902,
            ErrorCode::StreamCaptureUnmatched => 903,
            ErrorCode::StreamCaptureUnjoined => 904,
            ErrorCode::StreamCaptureIsolation => 905,
            ErrorCode::StreamCaptureImplicit => 906,
            ErrorCode::CapturedEvent => 907,
            ErrorCode::StreamCaptureWrongThread => 908,
            ErrorCode::Timeout => 909,
            ErrorCode::GraphExecUpdateFailure => 910,
            ErrorCode::Unknown => 999,
        }
    }

    /// The driver's number for this value.
    pub fn code(&self) -> (r: u32)
        ensures
            r == self.spec_code(),
    {
        match self {
            ErrorCode::Success => 0,
            ErrorCode::InvalidValue => 1,
            ErrorCode::OutOfMemory => 2,
            ErrorCode::NotInitialized => 3,
            ErrorCode::Deinitialized => 4,
            ErrorCode::ProfilerDisabled => 5,
            ErrorCode::ProfilerNotInitialized => 6,
            ErrorCode::ProfilerAlreadyStarted => 7,
            ErrorCode::ProfilerAlreadyStopped => 8,
            ErrorCode::StubLibrary => 34,
            ErrorCode::NoDevice => 100,
            ErrorCode::InvalidDevice => 101,
            ErrorCode::DeviceNotLicensed => 102,
            ErrorCode::InvalidImage => 200,
            ErrorCode::InvalidContext => 201,
            ErrorCode::ContextAlreadyCurrent => 202,
            ErrorCode::MapFailed => 205,
            ErrorCode::UnmapFailed => 206,
            ErrorCode::ArrayIsMapped => 207,
            ErrorCode::AlreadyMapped => 208,
            ErrorCode::NoBinaryForGpu => 209,
            ErrorCode::AlreadyAcquired => 210,
            ErrorCode::NotMapped => 211,
            ErrorCode::NotMappedAsArray => 212,
            ErrorCode::NotMappedAsPointer => 213,
            ErrorCode::EccUncorrectable => 214,
            ErrorCode::UnsupportedLimit => 215,
            ErrorCode::ContextAlreadyInUse => 216,
            ErrorCode::PeerAccessUnsupported => 217,
            ErrorCode::InvalidPtx => 218,
            ErrorCode::InvalidGraphicsContext => 219,
            ErrorCode::NvlinkUncorrectable => 220,
            ErrorCode::JitCompilerNotFound => 221,
            ErrorCode::UnsupportedPtxVersion => 222,
            ErrorCode::JitCompilationDisabled => 223,
            ErrorCode::InvalidSource => 300,
            ErrorCode::FileNotFound => 301,
            ErrorCode::SharedObjectSymbolNotFound => 302,
            ErrorCode::SharedObjectInitFailed => 303,
            ErrorCode::OperatingSystem => 304,
            ErrorCode::InvalidHandle => 400,
            ErrorCode::IllegalState => 401,
            ErrorCode::NotFound => 500,
            ErrorCode::NotReady => 600,
            ErrorCode::IllegalAddress => 700,
            ErrorCode::LaunchOutOfResources => 701,
            ErrorCode::LaunchTimeout => 702,
            ErrorCode::LaunchIncompatibleTexturing => 703,
            ErrorCode::PeerAccessAlreadyEnabled => 704,
            ErrorCode::PeerAccessNotEnabled => 705,
            ErrorCode::PrimaryContextActive => 708,
            ErrorCode::ContextIsDestroyed => 709,
            ErrorCode::Assert => 710,
            ErrorCode::TooManyPeers => 711,
            ErrorCode::HostMemoryAlreadyRegistered => 712,
            ErrorCode::HostMemoryNotRegistered => 713,
            ErrorCode::HardwareStackError => 714,
            ErrorCode::IllegalInstruction => 715,
            ErrorCode::MisalignedAddress => 716,
            ErrorCode::InvalidAddressSpace => 717,
            ErrorCode::InvalidPc => 718,
            ErrorCode::LaunchFailed => 719,
            ErrorCode::CooperativeLaunchTooLarge => 720,
            ErrorCode::NotPermitted => 800,
            ErrorCode::NotSupported => 801,
            ErrorCode::SystemNotReady => 802,
            ErrorCode::SystemDriverMismatch => 803,
            ErrorCode::CompatNotSupportedOnDevice => 804,
            ErrorCode::StreamCaptureUnsupported => 900,
            ErrorCode::StreamCaptureInvalidated => 901,
            ErrorCode::StreamCaptureMerge => 902,
            ErrorCode::StreamCaptureUnmatched => 903,
            ErrorCode::StreamCaptureUnjoined => 904,
            ErrorCode::StreamCaptureIsolation => 905,
            ErrorCode::StreamCaptureImplicit => 906,
            ErrorCode::CapturedEvent => 907,
            ErrorCode::StreamCaptureWrongThread => 908,
            ErrorCode::Timeout => 909,
            ErrorCode::GraphExecUpdateFailure => 910,
            ErrorCode::Unknown => 999,
        }
    }

    /// The value that the driver's number `code` stands for, if any.
    pub fn from_code(code: u32) -> (r: Option<ErrorCode>)
        ensures
            r matches Some(v) ==> v.spec_code() == code,
            r is None ==> forall|v: ErrorCode| v.spec_code() != code,
    {
        match code {
            0 => Some(ErrorCode::Success),
            1 => Some(ErrorCode::InvalidValue),
            2 => Some(ErrorCode::OutOfMemory),
            3 => Some(ErrorCode::NotInitialized),
            4 => Some(ErrorCode::Deinitialized),
            5 => Some(ErrorCode::ProfilerDisabled),
            6 => Some(ErrorCode::ProfilerNotInitialized),
            7 => Some(ErrorCode::ProfilerAlreadyStarted),
            8 => Some(ErrorCode::ProfilerAlreadyStopped),
            34 => Some(ErrorCode::StubLibrary),
            100 => Some(ErrorCode::NoDevice),
            101 => Some(ErrorCode::InvalidDevice),
            102 => Some(ErrorCode::DeviceNotLicensed),
            200 => Some(ErrorCode::InvalidImage),
            201 => Some(ErrorCode::InvalidContext),
            202 => Some(ErrorCode::ContextAlreadyCurrent),
            205 => Some(ErrorCode::MapFailed),
            206 => Some(ErrorCode::UnmapFailed),
            207 => Some(ErrorCode::ArrayIsMapped),
            208 => Some(ErrorCode::AlreadyMapped),
            209 => Some(ErrorCode::NoBinaryForGpu),
            210 => Some(ErrorCode::AlreadyAcquired),
            211 => Some(ErrorCode::NotMapped),
            212 => Some(ErrorCode::NotMappedAsArray),
            213 => Some(ErrorCode::NotMappedAsPointer),
            214 => Some(ErrorCode::EccUncorrectable),
            215 => Some(ErrorCode::UnsupportedLimit),
            216 => Some(ErrorCode::ContextAlreadyInUse),
            217 => Some(ErrorCode::PeerAccessUnsupported),
            218 => Some(ErrorCode::InvalidPtx),
            219 => Some(ErrorCode::InvalidGraphicsContext),
            220 => Some(ErrorCode::NvlinkUncorrectable),
            221 => Some(ErrorCode::JitCompilerNotFound),
            222 => Some(ErrorCode::UnsupportedPtxVersion),
            223 => Some(ErrorCode::JitCompilationDisabled),
            300 => Some(ErrorCode::InvalidSource),
            301 => Some(ErrorCode::FileNotFound),
            302 => Some(ErrorCode::SharedObjectSymbolNotFound),
            303 => Some(ErrorCode::SharedObjectInitFailed),
            304 => Some(ErrorCode::OperatingSystem),
            400 => Some(ErrorCode::InvalidHandle),
            401 => Some(ErrorCode::IllegalState),
            500 => Some(ErrorCode::NotFound),
            600 => Some(ErrorCode::NotReady),
            700 => Some(ErrorCode::IllegalAddress),
            701 => Some(ErrorCode::LaunchOutOfResources),
            702 => Some(ErrorCode::LaunchTimeout),
            703 => Some(ErrorCode::LaunchIncompatibleTexturing),
            704 => Some(ErrorCode::PeerAccessAlreadyEnabled),
            705 => Some(ErrorCode::PeerAccessNotEnabled),
            708 => Some(ErrorCode::PrimaryContextActive),
            709 => Some(ErrorCode::ContextIsDestroyed),
            710 => Some(ErrorCode::Assert),
            711 => Some(ErrorCode::TooManyPeers),
            712 => Some(ErrorCode::HostMemoryAlreadyRegistered),
            713 => Some(ErrorCode::HostMemoryNotRegistered),
            714 => Some(ErrorCode::HardwareStackError),
            715 => Some(ErrorCode::IllegalInstruction),
            716 => Some(ErrorCode::MisalignedAddress),
            717 => Some(ErrorCode::InvalidAddressSpace),
            718 => Some(ErrorCode::InvalidPc),
            719 => Some(ErrorCode::LaunchFailed),
            720 => Some(ErrorCode::CooperativeLaunchTooLarge),
            800 => Some(ErrorCode::NotPermitted),
            801 => Some(ErrorCode::NotSupported),
            802 => Some(ErrorCode::SystemNotReady),
            803 => Some(ErrorCode::SystemDriverMismatch),
            804 => Some(ErrorCode::CompatNotSupportedOnDevice),
            900 => Some(ErrorCode::StreamCaptureUnsupported),
            901 => Some(ErrorCode::StreamCaptureInvalidated),
            902 => Some(ErrorCode::StreamCaptureMerge),
            903 => Some(ErrorCode::StreamCaptureUnmatched),
            904 => Some(ErrorCode::StreamCaptureUnjoined),
            905 => Some(ErrorCode::StreamCaptureIsolation),
            906 => Some(ErrorCode::StreamCaptureImplicit),
            907 => Some(ErrorCode::CapturedEvent),
            908 => Some(ErrorCode::StreamCaptureWrongThread),
            909 => Some(ErrorCode::Timeout),
            910 => Some(ErrorCode::GraphExecUpdateFailure),
            999 => Some(ErrorCode::Unknown),
            _ => None,
        }
    }
}

/// The result of an operation that the driver may refuse.
pub type CudaResult<T> = Result<T, ErrorCode>;

/// Whether some error kind carries the driver's number `code`.
pub open spec fn is_known_code(code: u32) -> bool {
    exists|e: ErrorCode| e.spec_code() == code
}

/// The error kind that the driver's number `code` maps to.
pub open spec fn error_of(code: u32) -> ErrorCode {
    if is_known_code(code) {
        choose|e: ErrorCode| e.spec_code() == code
    } else {
        ErrorCode::Unknown
    }
}

/// What a driver status means: success for zero, else the mapped error kind.
pub open spec fn status_result(status: u32) -> CudaResult<()> {
    if status == 0 {
        Ok(())
    } else {
        Err(error_of(status))
    }
}

/// Two error kinds with the same number are the same kind.
pub proof fn lemma_code_injective(a: ErrorCode, b: ErrorCode)
    ensures
        a.spec_code() == b.spec_code() ==> a == b,
{
}

/// The mapping from numbers to kinds inverts the numbering of the kinds.
pub proof fn lemma_error_of_code(e: ErrorCode)
    ensures
        error_of(e.spec_code()) == e,
{
    let c = e.spec_code();
    assert(is_known_code(c));
    let x = choose|x: ErrorCode| x.spec_code() == c;
    lemma_code_injective(x, e);
}

/// Maps a driver status to a result: zero is success, a number outside the
/// table gives `ErrorCode::Unknown`.
pub fn cuda_error(status: u32) -> (r: CudaResult<()>)
    ensures
        r == status_result(status),
{
    if status == 0 {
        Ok(())
    } else {
        match ErrorCode::from_code(status) {
            Some(e) => {
                proof {
                    lemma_error_of_code(e);
                }
                Err(e)
            },
            None => Err(ErrorCode::Unknown),
        }
    }
}

} // verus!
