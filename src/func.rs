use vstd::prelude::*;

use crate::driver::DriverCall;
use crate::module::Module;

verus! {

/// An attribute of a kernel that the driver can report or set.
#[derive(Debug, Clone, Copy, PartialEq, Eq, Structural)]
pub enum FunctionAttribute {
    /// The maximum number of threads per block, beyond which a launch of the function would fail. This number depends on both the function and the device on which the function is currently loaded.
    MaxThreadsPerBlock,
    /// The size in bytes of statically-allocated shared memory required by this function. This does not include dynamically-allocated shared memory requested by the user at runtime.
    SharedSizeBytes,
    /// The size in bytes of user-allocated constant memory required by this function.
    ConstSizeBytes,
    /// The size in bytes of local memory used by each thread of this function.
    LocalSizeBytes,
    /// The number of registers used by each thread of this function.
    NumRegs,
    /// The PTX virtual architecture version for which the function was compiled. This value is the major PTX version * 10 + the minor PTX version, so a PTX version 1.3 function would return the value 13. Note that this may return the undefined value of 0 for cubins compiled prior to CUDA 3.0.
    PtxVersion,
    /// The binary architecture version for which the function was compiled. This value is the major binary version * 10 + the minor binary version, so a binary version 1.3 function would return the value 13. Note that this will return a value of 10 for legacy cubins that do not have a properly-encoded binary architecture version.
    BinaryVersion,
    /// The attribute to indicate whether the function has been compiled with user specified option "-Xptxas --dlcm=ca" set .
    CacheModeCa,
    /// The maximum size in bytes of dynamically-allocated shared memory that can be used by this function. If the user-specified dynamic shared memory size is larger than this value, the launch will fail. See cuFuncSetAttribute
    MaxDynamicSharedSizeBytes,
    /// On devices where the L1 cache and shared memory use the same hardware resources, this sets the shared memory carveout preference, in percent of the total shared memory. Refer to CU_DEVICE_ATTRIBUTE_MAX_SHARED_MEMORY_PER_MULTIPROCESSOR. This is only a hint, and the driver can choose a different ratio if required to execute the function. See cuFuncSetAttribute
    PreferredSharedMemoryCarveout,
}

impl FunctionAttribute {
    /// The driver's number for this value.
    pub open spec fn spec_code(self) -> u32 {
        match self {
            FunctionAttribute::MaxThreadsPerBlock => 0,
            FunctionAttribute::SharedSizeBytes => 1,
            FunctionAttribute::ConstSizeBytes => 2,
            FunctionAttribute::LocalSizeBytes => 3,
            FunctionAttribute::NumRegs => 4,
            FunctionAttribute::PtxVersion => 5,
            FunctionAttribute::BinaryVersion => 6,
            FunctionAttribute::CacheModeCa => 7,
            FunctionAttribute::MaxDynamicSharedSizeBytes => 8,
            FunctionAttribute::PreferredSharedMemoryCarveout => 9,
        }
    }

    /// The driver's number for this value.
    pub fn code(&self) -> (r: u32)
        ensures
            r == self.spec_code(),
    {
        match self {
            FunctionAttribute::MaxThreadsPerBlock => 0,
            FunctionAttribute::SharedSizeBytes => 1,
            FunctionAttribute::ConstSizeBytes => 2,
            FunctionAttribute::LocalSizeBytes => 3,
            FunctionAttribute::NumRegs => 4,
            FunctionAttribute::PtxVersion => 5,
            FunctionAttribute::BinaryVersion => 6,
            FunctionAttribute::CacheModeCa => 7,
            FunctionAttribute::MaxDynamicSharedSizeBytes => 8,
            FunctionAttribute::PreferredSharedMemoryCarveout => 9,
        }
    }

    /// The value that the driver's number `code` stands for, if any.
    pub fn from_code(code: u32) -> (r: Option<FunctionAttribute>)
        ensures
            r matches Some(v) ==> v.spec_code() == code,
            r is None ==> forall|v: FunctionAttribute| v.spec_code() != code,
    {
        match code {
            0 => Some(FunctionAttribute::MaxThreadsPerBlock),
            1 => Some(FunctionAttribute::SharedSizeBytes),
            2 => Some(FunctionAttribute::ConstSizeBytes),
            3 => Some(FunctionAttribute::LocalSizeBytes),
            4 => Some(FunctionAttribute::NumRegs),
            5 => Some(FunctionAttribute::PtxVersion),
            6 => Some(FunctionAttribute::BinaryVersion),
            7 => Some(FunctionAttribute::CacheModeCa),
            8 => Some(FunctionAttribute::MaxDynamicSharedSizeBytes),
            9 => Some(FunctionAttribute::PreferredSharedMemoryCarveout),
            _ => None,
        }
    }
}

/// A kernel's preferred split between L1 cache and shared memory.
#[derive(Debug, Clone, Copy, PartialEq, Eq, Structural)]
pub enum FuncCache {
    /// no preference for shared memory or L1 (default)
    PreferNone,
    /// prefer larger shared memory and smaller L1 cache
    PreferShared,
    /// prefer larger L1 cache and smaller shared memory
    PreferL1,
    /// prefer equal sized L1 cache and shared memory
    PreferEqual,
}

impl FuncCache {
    /// The driver's number for this value.
    pub open spec fn spec_code(self) -> u32 {
        match self {
            FuncCache::PreferNone => 0,
            FuncCache::PreferShared => 1,
            FuncCache::PreferL1 => 2,
            FuncCache::PreferEqual => 3,
        }
    }

    /// The driver's number for this value.
    pub fn code(&self) -> (r: u32)
        ensures
            r == self.spec_code(),
    {
        match self {
            FuncCache::PreferNone => 0,
            FuncCache::PreferShared => 1,
            FuncCache::PreferL1 => 2,
            FuncCache::PreferEqual => 3,
        }
    }

    /// The value that the driver's number `code` stands for, if any.
    pub fn from_code(code: u32) -> (r: Option<FuncCache>)
        ensures
            r matches Some(v) ==> v.spec_code() == code,
            r is None ==> forall|v: FuncCache| v.spec_code() != code,
    {
        match code {
            0 => Some(FuncCache::PreferNone),
            1 => Some(FuncCache::PreferShared),
            2 => Some(FuncCache::PreferL1),
            3 => Some(FuncCache::PreferEqual),
            _ => None,
        }
    }
}

/// A kernel's shared-memory bank width.
#[derive(Debug, Clone, Copy, PartialEq, Eq, Structural)]
pub enum FuncSharedConfig {
    /// set default shared memory bank size
    DefaultBankSize,
    /// set shared memory bank width to four bytes
    FourByteBankSize,
    /// set shared memory bank width to eight bytes
    EightByteBankSize,
}

impl FuncSharedConfig {
    /// The driver's number for this value.
    pub open spec fn spec_code(self) -> u32 {
        match self {
            FuncSharedConfig::DefaultBankSize => 0,
            FuncSharedConfig::FourByteBankSize => 1,
            FuncSharedConfig::EightByteBankSize => 2,
        }
    }

    /// The driver's number for this value.
    pub fn code(&self) -> (r: u32)
        ensures
            r == self.spec_code(),
    {
        match self {
            FuncSharedConfig::DefaultBankSize => 0,
            FuncSharedConfig::FourByteBankSize => 1,
            FuncSharedConfig::EightByteBankSize => 2,
        }
    }

    /// The value that the driver's number `code` stands for, if any.
    pub fn from_code(code: u32) -> (r: Option<FuncSharedConfig>)
        ensures
            r matches Some(v) ==> v.spec_code() == code,
            r is None ==> forall|v: FuncSharedConfig| v.spec_code() != code,
    {
        match code {
            0 => Some(FuncSharedConfig::DefaultBankSize),
            1 => Some(FuncSharedConfig::FourByteBankSize),
            2 => Some(FuncSharedConfig::EightByteBankSize),
            _ => None,
        }
    }
}

/// A kernel entry point of a loaded module. It borrows the module, so it
/// cannot outlive it.
pub struct Function<'a, 'b> {
    module: &'b Module<'a>,
    inner: u64,
}

impl<'a, 'b> Function<'a, 'b> {
    /// The kernel's native handle.
    pub closed spec fn raw(&self) -> u64 {
        self.inner
    }

    /// The module that holds the kernel.
    pub closed spec fn spec_module(&self) -> &'b Module<'a> {
        self.module
    }

    /// The kernel `raw` of `module`.
    pub(crate) fn from_raw(module: &'b Module<'a>, raw: u64) -> (r: Function<'a, 'b>)
        ensures
            r.raw() == raw,
            r.spec_module() == module,
    {
        Function { module, inner: raw }
    }

    /// The kernel's native handle.
    pub fn as_raw(&self) -> (r: u64)
        ensures
            r == self.raw(),
    {
        self.inner
    }

    /// The module that holds the kernel.
    pub fn module(&self) -> (r: &'b Module<'a>)
        ensures
            r == self.spec_module(),
    {
        self.module
    }

    /// The request for one attribute of the kernel.
    pub fn get_attribute(&self, attribute: FunctionAttribute) -> (r: DriverCall)
        ensures
            r == (DriverCall::FuncGetAttribute { attribute: attribute.spec_code(), function: self.raw() }),
    {
        DriverCall::FuncGetAttribute { attribute: attribute.code(), function: self.inner }
    }

    /// The request that sets one attribute of the kernel.
    pub fn set_attribute(&mut self, attribute: FunctionAttribute, value: i32) -> (r: DriverCall)
        ensures
            *final(self) == *old(self),
            r == (DriverCall::FuncSetAttribute {
                function: old(self).raw(),
                attribute: attribute.spec_code(),
                value,
            }),
    {
        DriverCall::FuncSetAttribute { function: self.inner, attribute: attribute.code(), value }
    }

    /// The request that sets the kernel's cache preference.
    pub fn set_cache_config(&mut self, func_cache: FuncCache) -> (r: DriverCall)
        ensures
            *final(self) == *old(self),
            r == (DriverCall::FuncSetCacheConfig { function: old(self).raw(), config: func_cache.spec_code() }),
    {
        DriverCall::FuncSetCacheConfig { function: self.inner, config: func_cache.code() }
    }

    /// The request that sets the kernel's shared-memory bank width.
    pub fn set_shared_mem_config(&mut self, config: FuncSharedConfig) -> (r: DriverCall)
        ensures
            *final(self) == *old(self),
            r == (DriverCall::FuncSetSharedMemConfig { function: old(self).raw(), config: config.spec_code() }),
    {
        DriverCall::FuncSetSharedMemConfig { function: self.inner, config: config.code() }
    }
}

} // verus!
