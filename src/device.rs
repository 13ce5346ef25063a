use vstd::prelude::*;

use crate::driver::{before_nul, complete, outcome, text_before_nul, DriverCall, DEVICE_NAME_CAPACITY};
use crate::error::{cuda_error, error_of, CudaResult};
use crate::version::{decode_version, CudaVersion};
use crate::Cuda;

verus! {

/// A compute device, by the driver's handle; it stays valid for the process.
#[derive(Debug, Clone, Copy, PartialEq, Eq, Structural)]
pub struct Device {
    pub handle: i32,
}

/// The element format of a native array.
#[derive(Debug, Clone, Copy, PartialEq, Eq, Structural)]
pub enum CudaArrayFormat {
    UnsignedInt8,
    UnsignedInt16,
    UnsignedInt32,
    SignedInt8,
    SignedInt16,
    SignedInt32,
    Half,
    Float,
    Nv12,
}

impl CudaArrayFormat {
    /// The driver's number for this value.
    pub open spec fn spec_code(self) -> u32 {
        match self {
            CudaArrayFormat::UnsignedInt8 => 1,
            CudaArrayFormat::UnsignedInt16 => 2,
            CudaArrayFormat::UnsignedInt32 => 3,
            CudaArrayFormat::SignedInt8 => 8,
            CudaArrayFormat::SignedInt16 => 9,
            CudaArrayFormat::SignedInt32 => 10,
            CudaArrayFormat::Half => 16,
            CudaArrayFormat::Float => 32,
            CudaArrayFormat::Nv12 => 176,
        }
    }

    /// The driver's number for this value.
    pub fn code(&self) -> (r: u32)
        ensures
            r == self.spec_code(),
    {
        match self {
            CudaArrayFormat::UnsignedInt8 => 1,
            CudaArrayFormat::UnsignedInt16 => 2,
            CudaArrayFormat::UnsignedInt32 => 3,
            CudaArrayFormat::SignedInt8 => 8,
            CudaArrayFormat::SignedInt16 => 9,
            CudaArrayFormat::SignedInt32 => 10,
            CudaArrayFormat::Half => 16,
            CudaArrayFormat::Float => 32,
            CudaArrayFormat::Nv12 => 176,
        }
    }

    /// The value that the driver's number `code` stands for, if any.
    pub fn from_code(code: u32) -> (r: Option<CudaArrayFormat>)
        ensures
            r matches Some(v) ==> v.spec_code() == code,
            r is None ==> forall|v: CudaArrayFormat| v.spec_code() != code,
    {
        match code {
            1 => Some(CudaArrayFormat::UnsignedInt8),
            2 => Some(CudaArrayFormat::UnsignedInt16),
            3 => Some(CudaArrayFormat::UnsignedInt32),
            8 => Some(CudaArrayFormat::SignedInt8),
            9 => Some(CudaArrayFormat::SignedInt16),
            10 => Some(CudaArrayFormat::SignedInt32),
            16 => Some(CudaArrayFormat::Half),
            32 => Some(CudaArrayFormat::Float),
            176 => Some(CudaArrayFormat::Nv12),
            _ => None,
        }
    }
}

/// A per-device attribute that the driver can be asked for.
#[derive(Debug, Clone, Copy, PartialEq, Eq, Structural)]
pub enum DeviceAttribute {
    MaxThreadsPerBlock,
    MaxBlockDimX,
    MaxBlockDimY,
    MaxBlockDimZ,
    MaxGridDimX,
    MaxGridDimY,
    MaxGridDimZ,
    SharedMemoryPerBlock,
    TotalConstantMemory,
    WarpSize,
    MaxPitch,
    RegistersPerBlock,
    ClockRate,
    TextureAlignment,
    GpuOverlap,
    MultiprocessorCount,
    KernelExecTimeout,
    Integrated,
    CanMapHostMemory,
    ComputeMode,
    MaximumTexture1dWidth,
    MaximumTexture2dWidth,
    MaximumTexture2dHeight,
    MaximumTexture3dWidth,
    MaximumTexture3dHeight,
    MaximumTexture3dDepth,
    MaximumTexture2dArrayWidth,
    MaximumTexture2dArrayHeight,
    MaximumTexture2dArrayNumslices,
    SurfaceAlignment,
    ConcurrentKernels,
    EccEnabled,
    PciBusId,
    PciDeviceId,
    TccDriver,
    MemoryClockRate,
    GlobalMemoryBusWidth,
    L2CacheSize,
    MaxThreadsPerMultiprocessor,
    AsyncEngineCount,
    UnifiedAddressing,
    MaximumTexture1dLayeredWidth,
    MaximumTexture1dLayeredLayers,
    CanTex2dGather,
    MaximumTexture2dGatherHeight,
    MaximumTexture3dWidthAlternate,
    MaximumTexture3dHeightAlternate,
    MaximumTexture3dDepthAlternate,
    PciDomainId,
    TexturePitchAlignment,
    MaximumTexturecubemapWidth,
    MaximumTexturecubemapLayeredWidth,
    MaximumTexturecubemapLayeredLayers,
    MaximumSurface1dWidth,
    MaximumSurface2dWidth,
    MaximumSurface2dHeight,
    MaximumSurface3dWidth,
    MaximumSurface3dHeight,
    MaximumSurface3dDepth,
    MaximumSurface1dLayeredWidth,
    MaximumSurface1dLayeredLayers,
    MaximumSurface2dLayeredWidth,
    MaximumSurface2dLayeredHeight,
    MaximumSurface2dLayeredLayers,
    MaximumSurfacecubemapWidth,
    MaximumSurfacecubemapLayeredWidth,
    MaximumSurfacecubemapLayeredLayers,
    MaximumTexture1dLinearWidth,
    MaximumTexture2dLinearWidth,
    MaximumTexture2dLinearHeight,
    MaximumTexture2dLinearPitch,
    MaximumTexture2dMipmappedWidth,
    MaximumTexture2dMipmappedHeight,
    ComputeCapabilityMajor,
    ComputeCapabilityMinor,
    MaximumTexture1dMipmappedWidth,
    StreamPrioritiesSupported,
    GlobalL1CacheSupported,
    LocalL1CacheSupported,
    MaxSharedMemoryPerMultiprocessor,
    MaxRegistersPerMultiprocessor,
    ManagedMemory,
    MultiGpuBoard,
    MultiGpuBoardGroupId,
    HostNativeAtomicSupported,
    SingleToDoublePrecisionPerfRatio,
    PageableMemoryAccess,
    ConcurrentManagedAccess,
    ComputePreemptionSupported,
    CanUseHostPointerForRegisteredMem,
    CanUseStreamMemOps,
    CanUse64BitStreamMemOps,
    CanUseStreamWaitValueNor,
    CooperativeLaunch,
    CooperativeMultiDeviceLaunch,
    MaxSharedMemoryPerBlockOptin,
    CanFlushRemoteWrites,
    HostRegisterSupported,
    PageableMemoryAccessUsesHostPageTables,
    DirectManagedMemAccessFromHost,
    VirtualMemoryManagementSupported,
    HandleTypePosixFileDescriptorSupported,
    HandleTypeWin32HandleSupported,
    HandleTypeWin32KmtHandleSupported,
    MaxBlocksPerMultiprocessor,
    GenericCompressionSupported,
    MaxPersistingL2CacheSize,
    MaxAccessPolicyWindowSize,
    GpuDirectRdmaWithCudaVmmSupported,
    ReservedSharedMemoryPerBlock,
    SparseCudaArraySupported,
    ReadOnlyHostRegisterSupported,
    TimelineSemaphoreInteropSupported,
    MemoryPoolsSupported,
    GpuDirectRdmaSupported,
    GpuDirectRdmaFlushWritesOptions,
    GpuDirectRdmaWritesOrdering,
    MempoolSupportedHandleTypes,
}

impl DeviceAttribute {
    /// The driver's number for this value.
    pub open spec fn spec_code(self) -> u32 {
        match self {
            DeviceAttribute::MaxThreadsPerBlock => 1,
            DeviceAttribute::MaxBlockDimX => 2,
            DeviceAttribute::MaxBlockDimY => 3,
            DeviceAttribute::MaxBlockDimZ => 4,
            DeviceAttribute::MaxGridDimX => 5,
            DeviceAttribute::MaxGridDimY => 6,
            DeviceAttribute::MaxGridDimZ => 7,
            DeviceAttribute::SharedMemoryPerBlock => 8,
            DeviceAttribute::TotalConstantMemory => 9,
            DeviceAttribute::WarpSize => 10,
            DeviceAttribute::MaxPitch => 11,
            DeviceAttribute::RegistersPerBlock => 12,
            DeviceAttribute::ClockRate => 13,
            DeviceAttribute::TextureAlignment => 14,
            DeviceAttribute::GpuOverlap => 15,
            DeviceAttribute::MultiprocessorCount => 16,
            DeviceAttribute::KernelExecTimeout => 17,
            DeviceAttribute::Integrated => 18,
            DeviceAttribute::CanMapHostMemory => 19,
            DeviceAttribute::ComputeMode => 20,
            DeviceAttribute::MaximumTexture1dWidth => 21,
            DeviceAttribute::MaximumTexture2dWidth => 22,
            DeviceAttribute::MaximumTexture2dHeight => 23,
            DeviceAttribute::MaximumTexture3dWidth => 24,
            DeviceAttribute::MaximumTexture3dHeight => 25,
            DeviceAttribute::MaximumTexture3dDepth => 26,
            DeviceAttribute::MaximumTexture2dArrayWidth => 27,
            DeviceAttribute::MaximumTexture2dArrayHeight => 28,
            DeviceAttribute::MaximumTexture2dArrayNumslices => 29,
            DeviceAttribute::SurfaceAlignment => 30,
            DeviceAttribute::ConcurrentKernels => 31,
            DeviceAttribute::EccEnabled => 32,
            DeviceAttribute::PciBusId => 33,
            DeviceAttribute::PciDeviceId => 34,
            DeviceAttribute::TccDriver => 35,
            DeviceAttribute::MemoryClockRate => 36,
            DeviceAttribute::GlobalMemoryBusWidth => 37,
            DeviceAttribute::L2CacheSize => 38,
            DeviceAttribute::MaxThreadsPerMultiprocessor => 39,
            DeviceAttribute::AsyncEngineCount => 40,
            DeviceAttribute::UnifiedAddressing => 41,
            DeviceAttribute::MaximumTexture1dLayeredWidth => 42,
            DeviceAttribute::MaximumTexture1dLayeredLayers => 43,
            DeviceAttribute::CanTex2dGather => 44,
            DeviceAttribute::MaximumTexture2dGatherHeight => 46,
            DeviceAttribute::MaximumTexture3dWidthAlternate => 47,
            DeviceAttribute::MaximumTexture3dHeightAlternate => 48,
            DeviceAttribute::MaximumTexture3dDepthAlternate => 49,
            DeviceAttribute::PciDomainId => 50,
            DeviceAttribute::TexturePitchAlignment => 51,
            DeviceAttribute::MaximumTexturecubemapWidth => 52,
            DeviceAttribute::MaximumTexturecubemapLayeredWidth => 53,
            DeviceAttribute::MaximumTexturecubemapLayeredLayers => 54,
            DeviceAttribute::MaximumSurface1dWidth => 55,
            DeviceAttribute::MaximumSurface2dWidth => 56,
            DeviceAttribute::MaximumSurface2dHeight => 57,
            DeviceAttribute::MaximumSurface3dWidth => 58,
            DeviceAttribute::MaximumSurface3dHeight => 59,
            DeviceAttribute::MaximumSurface3dDepth => 60,
            DeviceAttribute::MaximumSurface1dLayeredWidth => 61,
            DeviceAttribute::MaximumSurface1dLayeredLayers => 62,
            DeviceAttribute::MaximumSurface2dLayeredWidth => 63,
            DeviceAttribute::MaximumSurface2dLayeredHeight => 64,
            DeviceAttribute::MaximumSurface2dLayeredLayers => 65,
            DeviceAttribute::MaximumSurfacecubemapWidth => 66,
            DeviceAttribute::MaximumSurfacecubemapLayeredWidth => 67,
            DeviceAttribute::MaximumSurfacecubemapLayeredLayers => 68,
            DeviceAttribute::MaximumTexture1dLinearWidth => 69,
            DeviceAttribute::MaximumTexture2dLinearWidth => 70,
            DeviceAttribute::MaximumTexture2dLinearHeight => 71,
            DeviceAttribute::MaximumTexture2dLinearPitch => 72,
            DeviceAttribute::MaximumTexture2dMipmappedWidth => 73,
            DeviceAttribute::MaximumTexture2dMipmappedHeight => 74,
            DeviceAttribute::ComputeCapabilityMajor => 75,
            DeviceAttribute::ComputeCapabilityMinor => 76,
            DeviceAttribute::MaximumTexture1dMipmappedWidth => 77,
            DeviceAttribute::StreamPrioritiesSupported => 78,
            DeviceAttribute::GlobalL1CacheSupported => 79,
            DeviceAttribute::LocalL1CacheSupported => 80,
            DeviceAttribute::MaxSharedMemoryPerMultiprocessor => 81,
            DeviceAttribute::MaxRegistersPerMultiprocessor => 82,
            DeviceAttribute::ManagedMemory => 83,
            DeviceAttribute::MultiGpuBoard => 84,
            DeviceAttribute::MultiGpuBoardGroupId => 85,
            DeviceAttribute::HostNativeAtomicSupported => 86,
            DeviceAttribute::SingleToDoublePrecisionPerfRatio => 87,
            DeviceAttribute::PageableMemoryAccess => 88,
            DeviceAttribute::ConcurrentManagedAccess => 89,
            DeviceAttribute::ComputePreemptionSupported => 90,
            DeviceAttribute::CanUseHostPointerForRegisteredMem => 91,
            DeviceAttribute::CanUseStreamMemOps => 92,
            DeviceAttribute::CanUse64BitStreamMemOps => 93,
            DeviceAttribute::CanUseStreamWaitValueNor => 94,
            DeviceAttribute::CooperativeLaunch => 95,
            DeviceAttribute::CooperativeMultiDeviceLaunch => 96,
            DeviceAttribute::MaxSharedMemoryPerBlockOptin => 97,
            DeviceAttribute::CanFlushRemoteWrites => 98,
            DeviceAttribute::HostRegisterSupported => 99,
            DeviceAttribute::PageableMemoryAccessUsesHostPageTables => 100,
            DeviceAttribute::DirectManagedMemAccessFromHost => 101,
            DeviceAttribute::VirtualMemoryManagementSupported => 102,
            DeviceAttribute::HandleTypePosixFileDescriptorSupported => 103,
            DeviceAttribute::HandleTypeWin32HandleSupported => 104,
            DeviceAttribute::HandleTypeWin32KmtHandleSupported => 105,
            DeviceAttribute::MaxBlocksPerMultiprocessor => 106,
            DeviceAttribute::GenericCompressionSupported => 107,
            DeviceAttribute::MaxPersistingL2CacheSize => 108,
            DeviceAttribute::MaxAccessPolicyWindowSize => 109,
            DeviceAttribute::GpuDirectRdmaWithCudaVmmSupported => 110,
            DeviceAttribute::ReservedSharedMemoryPerBlock => 111,
            DeviceAttribute::SparseCudaArraySupported => 112,
            DeviceAttribute::ReadOnlyHostRegisterSupported => 113,
            DeviceAttribute::TimelineSemaphoreInteropSupported => 114,
            DeviceAttribute::MemoryPoolsSupported => 115,
            DeviceAttribute::GpuDirectRdmaSupported => 116,
            DeviceAttribute::GpuDirectRdmaFlushWritesOptions => 117,
            DeviceAttribute::GpuDirectRdmaWritesOrdering => 118,
            DeviceAttribute::MempoolSupportedHandleTypes => 119,
        }
    }

    /// The driver's number for this value.
    pub fn code(&self) -> (r: u32)
        ensures
            r == self.spec_code(),
    {
        match self {
            DeviceAttribute::MaxThreadsPerBlock => 1,
            DeviceAttribute::MaxBlockDimX => 2,
            DeviceAttribute::MaxBlockDimY => 3,
            DeviceAttribute::MaxBlockDimZ => 4,
            DeviceAttribute::MaxGridDimX => 5,
            DeviceAttribute::MaxGridDimY => 6,
            DeviceAttribute::MaxGridDimZ => 7,
            DeviceAttribute::SharedMemoryPerBlock => 8,
            DeviceAttribute::TotalConstantMemory => 9,
            DeviceAttribute::WarpSize => 10,
            DeviceAttribute::MaxPitch => 11,
            DeviceAttribute::RegistersPerBlock => 12,
            DeviceAttribute::ClockRate => 13,
            DeviceAttribute::TextureAlignment => 14,
            DeviceAttribute::GpuOverlap => 15,
            DeviceAttribute::MultiprocessorCount => 16,
            DeviceAttribute::KernelExecTimeout => 17,
            DeviceAttribute::Integrated => 18,
            DeviceAttribute::CanMapHostMemory => 19,
            DeviceAttribute::ComputeMode => 20,
            DeviceAttribute::MaximumTexture1dWidth => 21,
            DeviceAttribute::MaximumTexture2dWidth => 22,
            DeviceAttribute::MaximumTexture2dHeight => 23,
            DeviceAttribute::MaximumTexture3dWidth => 24,
            DeviceAttribute::MaximumTexture3dHeight => 25,
            DeviceAttribute::MaximumTexture3dDepth => 26,
            DeviceAttribute::MaximumTexture2dArrayWidth => 27,
            DeviceAttribute::MaximumTexture2dArrayHeight => 28,
            DeviceAttribute::MaximumTexture2dArrayNumslices => 29,
            DeviceAttribute::SurfaceAlignment => 30,
            DeviceAttribute::ConcurrentKernels => 31,
            DeviceAttribute::EccEnabled => 32,
            DeviceAttribute::PciBusId => 33,
            DeviceAttribute::PciDeviceId => 34,
            DeviceAttribute::TccDriver => 35,
            DeviceAttribute::MemoryClockRate => 36,
            DeviceAttribute::GlobalMemoryBusWidth => 37,
            DeviceAttribute::L2CacheSize => 38,
            DeviceAttribute::MaxThreadsPerMultiprocessor => 39,
            DeviceAttribute::AsyncEngineCount => 40,
            DeviceAttribute::UnifiedAddressing => 41,
            DeviceAttribute::MaximumTexture1dLayeredWidth => 42,
            DeviceAttribute::MaximumTexture1dLayeredLayers => 43,
            DeviceAttribute::CanTex2dGather => 44,
            DeviceAttribute::MaximumTexture2dGatherHeight => 46,
            DeviceAttribute::MaximumTexture3dWidthAlternate => 47,
            DeviceAttribute::MaximumTexture3dHeightAlternate => 48,
            DeviceAttribute::MaximumTexture3dDepthAlternate => 49,
            DeviceAttribute::PciDomainId => 50,
            DeviceAttribute::TexturePitchAlignment => 51,
            DeviceAttribute::MaximumTexturecubemapWidth => 52,
            DeviceAttribute::MaximumTexturecubemapLayeredWidth => 53,
            DeviceAttribute::MaximumTexturecubemapLayeredLayers => 54,
            DeviceAttribute::MaximumSurface1dWidth => 55,
            DeviceAttribute::MaximumSurface2dWidth => 56,
            DeviceAttribute::MaximumSurface2dHeight => 57,
            DeviceAttribute::MaximumSurface3dWidth => 58,
            DeviceAttribute::MaximumSurface3dHeight => 59,
            DeviceAttribute::MaximumSurface3dDepth => 60,
            DeviceAttribute::MaximumSurface1dLayeredWidth => 61,
            DeviceAttribute::MaximumSurface1dLayeredLayers => 62,
            DeviceAttribute::MaximumSurface2dLayeredWidth => 63,
            DeviceAttribute::MaximumSurface2dLayeredHeight => 64,
            DeviceAttribute::MaximumSurface2dLayeredLayers => 65,
            DeviceAttribute::MaximumSurfacecubemapWidth => 66,
            DeviceAttribute::MaximumSurfacecubemapLayeredWidth => 67,
            DeviceAttribute::MaximumSurfacecubemapLayeredLayers => 68,
            DeviceAttribute::MaximumTexture1dLinearWidth => 69,
            DeviceAttribute::MaximumTexture2dLinearWidth => 70,
            DeviceAttribute::MaximumTexture2dLinearHeight => 71,
            DeviceAttribute::MaximumTexture2dLinearPitch => 72,
            DeviceAttribute::MaximumTexture2dMipmappedWidth => 73,
            DeviceAttribute::MaximumTexture2dMipmappedHeight => 74,
            DeviceAttribute::ComputeCapabilityMajor => 75,
            DeviceAttribute::ComputeCapabilityMinor => 76,
            DeviceAttribute::MaximumTexture1dMipmappedWidth => 77,
            DeviceAttribute::StreamPrioritiesSupported => 78,
            DeviceAttribute::GlobalL1CacheSupported => 79,
            DeviceAttribute::LocalL1CacheSupported => 80,
            DeviceAttribute::MaxSharedMemoryPerMultiprocessor => 81,
            DeviceAttribute::MaxRegistersPerMultiprocessor => 82,
            DeviceAttribute::ManagedMemory => 83,
            DeviceAttribute::MultiGpuBoard => 84,
            DeviceAttribute::MultiGpuBoardGroupId => 85,
            DeviceAttribute::HostNativeAtomicSupported => 86,
            DeviceAttribute::SingleToDoublePrecisionPerfRatio => 87,
            DeviceAttribute::PageableMemoryAccess => 88,
            DeviceAttribute::ConcurrentManagedAccess => 89,
            DeviceAttribute::ComputePreemptionSupported => 90,
            DeviceAttribute::CanUseHostPointerForRegisteredMem => 91,
            DeviceAttribute::CanUseStreamMemOps => 92,
            DeviceAttribute::CanUse64BitStreamMemOps => 93,
            DeviceAttribute::CanUseStreamWaitValueNor => 94,
            DeviceAttribute::CooperativeLaunch => 95,
            DeviceAttribute::CooperativeMultiDeviceLaunch => 96,
            DeviceAttribute::MaxSharedMemoryPerBlockOptin => 97,
            DeviceAttribute::CanFlushRemoteWrites => 98,
            DeviceAttribute::HostRegisterSupported => 99,
            DeviceAttribute::PageableMemoryAccessUsesHostPageTables => 100,
            DeviceAttribute::DirectManagedMemAccessFromHost => 101,
            DeviceAttribute::VirtualMemoryManagementSupported => 102,
            DeviceAttribute::HandleTypePosixFileDescriptorSupported => 103,
            DeviceAttribute::HandleTypeWin32HandleSupported => 104,
            DeviceAttribute::HandleTypeWin32KmtHandleSupported => 105,
            DeviceAttribute::MaxBlocksPerMultiprocessor => 106,
            DeviceAttribute::GenericCompressionSupported => 107,
            DeviceAttribute::MaxPersistingL2CacheSize => 108,
            DeviceAttribute::MaxAccessPolicyWindowSize => 109,
            DeviceAttribute::GpuDirectRdmaWithCudaVmmSupported => 110,
            DeviceAttribute::ReservedSharedMemoryPerBlock => 111,
            DeviceAttribute::SparseCudaArraySupported => 112,
            DeviceAttribute::ReadOnlyHostRegisterSupported => 113,
            DeviceAttribute::TimelineSemaphoreInteropSupported => 114,
            DeviceAttribute::MemoryPoolsSupported => 115,
            DeviceAttribute::GpuDirectRdmaSupported => 116,
            DeviceAttribute::GpuDirectRdmaFlushWritesOptions => 117,
            DeviceAttribute::GpuDirectRdmaWritesOrdering => 118,
            DeviceAttribute::MempoolSupportedHandleTypes => 119,
        }
    }

    /// The value that the driver's number `code` stands for, if any.
    pub fn from_code(code: u32) -> (r: Option<DeviceAttribute>)
        ensures
            r matches Some(v) ==> v.spec_code() == code,
            r is None ==> forall|v: DeviceAttribute| v.spec_code() != code,
    {
        match code {
            1 => Some(DeviceAttribute::MaxThreadsPerBlock),
            2 => Some(DeviceAttribute::MaxBlockDimX),
            3 => Some(DeviceAttribute::MaxBlockDimY),
            4 => Some(DeviceAttribute::MaxBlockDimZ),
            5 => Some(DeviceAttribute::MaxGridDimX),
            6 => Some(DeviceAttribute::MaxGridDimY),
            7 => Some(DeviceAttribute::MaxGridDimZ),
            8 => Some(DeviceAttribute::SharedMemoryPerBlock),
            9 => Some(DeviceAttribute::TotalConstantMemory),
            10 => Some(DeviceAttribute::WarpSize),
            11 => Some(DeviceAttribute::MaxPitch),
            12 => Some(DeviceAttribute::RegistersPerBlock),
            13 => Some(DeviceAttribute::ClockRate),
            14 => Some(DeviceAttribute::TextureAlignment),
            15 => Some(DeviceAttribute::GpuOverlap),
            16 => Some(DeviceAttribute::MultiprocessorCount),
            17 => Some(DeviceAttribute::KernelExecTimeout),
            18 => Some(DeviceAttribute::Integrated),
            19 => Some(DeviceAttribute::CanMapHostMemory),
            20 => Some(DeviceAttribute::ComputeMode),
            21 => Some(DeviceAttribute::MaximumTexture1dWidth),
            22 => Some(DeviceAttribute::MaximumTexture2dWidth),
            23 => Some(DeviceAttribute::MaximumTexture2dHeight),
            24 => Some(DeviceAttribute::MaximumTexture3dWidth),
            25 => Some(DeviceAttribute::MaximumTexture3dHeight),
            26 => Some(DeviceAttribute::MaximumTexture3dDepth),
            27 => Some(DeviceAttribute::MaximumTexture2dArrayWidth),
            28 => Some(DeviceAttribute::MaximumTexture2dArrayHeight),
            29 => Some(DeviceAttribute::MaximumTexture2dArrayNumslices),
            30 => Some(DeviceAttribute::SurfaceAlignment),
            31 => Some(DeviceAttribute::ConcurrentKernels),
            32 => Some(DeviceAttribute::EccEnabled),
            33 => Some(DeviceAttribute::PciBusId),
            34 => Some(DeviceAttribute::PciDeviceId),
            35 => Some(DeviceAttribute::TccDriver),
            36 => Some(DeviceAttribute::MemoryClockRate),
            37 => Some(DeviceAttribute::GlobalMemoryBusWidth),
            38 => Some(DeviceAttribute::L2CacheSize),
            39 => Some(DeviceAttribute::MaxThreadsPerMultiprocessor),
            40 => Some(DeviceAttribute::AsyncEngineCount),
            41 => Some(DeviceAttribute::UnifiedAddressing),
            42 => Some(DeviceAttribute::MaximumTexture1dLayeredWidth),
            43 => Some(DeviceAttribute::MaximumTexture1dLayeredLayers),
            44 => Some(DeviceAttribute::CanTex2dGather),
            46 => Some(DeviceAttribute::MaximumTexture2dGatherHeight),
            47 => Some(DeviceAttribute::MaximumTexture3dWidthAlternate),
            48 => Some(DeviceAttribute::MaximumTexture3dHeightAlternate),
            49 => Some(DeviceAttribute::MaximumTexture3dDepthAlternate),
            50 => Some(DeviceAttribute::PciDomainId),
            51 => Some(DeviceAttribute::TexturePitchAlignment),
            52 => Some(DeviceAttribute::MaximumTexturecubemapWidth),
            53 => Some(DeviceAttribute::MaximumTexturecubemapLayeredWidth),
            54 => Some(DeviceAttribute::MaximumTexturecubemapLayeredLayers),
            55 => Some(DeviceAttribute::MaximumSurface1dWidth),
            56 => Some(DeviceAttribute::MaximumSurface2dWidth),
            57 => Some(DeviceAttribute::MaximumSurface2dHeight),
            58 => Some(DeviceAttribute::MaximumSurface3dWidth),
            59 => Some(DeviceAttribute::MaximumSurface3dHeight),
            60 => Some(DeviceAttribute::MaximumSurface3dDepth),
            61 => Some(DeviceAttribute::MaximumSurface1dLayeredWidth),
            62 => Some(DeviceAttribute::MaximumSurface1dLayeredLayers),
            63 => Some(DeviceAttribute::MaximumSurface2dLayeredWidth),
            64 => Some(DeviceAttribute::MaximumSurface2dLayeredHeight),
            65 => Some(DeviceAttribute::MaximumSurface2dLayeredLayers),
            66 => Some(DeviceAttribute::MaximumSurfacecubemapWidth),
            67 => Some(DeviceAttribute::MaximumSurfacecubemapLayeredWidth),
            68 => Some(DeviceAttribute::MaximumSurfacecubemapLayeredLayers),
            69 => Some(DeviceAttribute::MaximumTexture1dLinearWidth),
            70 => Some(DeviceAttribute::MaximumTexture2dLinearWidth),
            71 => Some(DeviceAttribute::MaximumTexture2dLinearHeight),
            72 => Some(DeviceAttribute::MaximumTexture2dLinearPitch),
            73 => Some(DeviceAttribute::MaximumTexture2dMipmappedWidth),
            74 => Some(DeviceAttribute::MaximumTexture2dMipmappedHeight),
            75 => Some(DeviceAttribute::ComputeCapabilityMajor),
            76 => Some(DeviceAttribute::ComputeCapabilityMinor),
            77 => Some(DeviceAttribute::MaximumTexture1dMipmappedWidth),
            78 => Some(DeviceAttribute::StreamPrioritiesSupported),
            79 => Some(DeviceAttribute::GlobalL1CacheSupported),
            80 => Some(DeviceAttribute::LocalL1CacheSupported),
            81 => Some(DeviceAttribute::MaxSharedMemoryPerMultiprocessor),
            82 => Some(DeviceAttribute::MaxRegistersPerMultiprocessor),
            83 => Some(DeviceAttribute::ManagedMemory),
            84 => Some(DeviceAttribute::MultiGpuBoard),
            85 => Some(DeviceAttribute::MultiGpuBoardGroupId),
            86 => Some(DeviceAttribute::HostNativeAtomicSupported),
            87 => Some(DeviceAttribute::SingleToDoublePrecisionPerfRatio),
            88 => Some(DeviceAttribute::PageableMemoryAccess),
            89 => Some(DeviceAttribute::ConcurrentManagedAccess),
            90 => Some(DeviceAttribute::ComputePreemptionSupported),
            91 => Some(DeviceAttribute::CanUseHostPointerForRegisteredMem),
            92 => Some(DeviceAttribute::CanUseStreamMemOps),
            93 => Some(DeviceAttribute::CanUse64BitStreamMemOps),
            94 => Some(DeviceAttribute::CanUseStreamWaitValueNor),
            95 => Some(DeviceAttribute::CooperativeLaunch),
            96 => Some(DeviceAttribute::CooperativeMultiDeviceLaunch),
            97 => Some(DeviceAttribute::MaxSharedMemoryPerBlockOptin),
            98 => Some(DeviceAttribute::CanFlushRemoteWrites),
            99 => Some(DeviceAttribute::HostRegisterSupported),
            100 => Some(DeviceAttribute::PageableMemoryAccessUsesHostPageTables),
            101 => Some(DeviceAttribute::DirectManagedMemAccessFromHost),
            102 => Some(DeviceAttribute::VirtualMemoryManagementSupported),
            103 => Some(DeviceAttribute::HandleTypePosixFileDescriptorSupported),
            104 => Some(DeviceAttribute::HandleTypeWin32HandleSupported),
            105 => Some(DeviceAttribute::HandleTypeWin32KmtHandleSupported),
            106 => Some(DeviceAttribute::MaxBlocksPerMultiprocessor),
            107 => Some(DeviceAttribute::GenericCompressionSupported),
            108 => Some(DeviceAttribute::MaxPersistingL2CacheSize),
            109 => Some(DeviceAttribute::MaxAccessPolicyWindowSize),
            110 => Some(DeviceAttribute::GpuDirectRdmaWithCudaVmmSupported),
            111 => Some(DeviceAttribute::ReservedSharedMemoryPerBlock),
            112 => Some(DeviceAttribute::SparseCudaArraySupported),
            113 => Some(DeviceAttribute::ReadOnlyHostRegisterSupported),
            114 => Some(DeviceAttribute::TimelineSemaphoreInteropSupported),
            115 => Some(DeviceAttribute::MemoryPoolsSupported),
            116 => Some(DeviceAttribute::GpuDirectRdmaSupported),
            117 => Some(DeviceAttribute::GpuDirectRdmaFlushWritesOptions),
            118 => Some(DeviceAttribute::GpuDirectRdmaWritesOrdering),
            119 => Some(DeviceAttribute::MempoolSupportedHandleTypes),
            _ => None,
        }
    }
}

impl Device {
    /// The request for the device's name, into a buffer of fixed size.
    pub fn name_call(&self) -> (r: DriverCall)
        ensures
            r == (DriverCall::DeviceGetName { capacity: DEVICE_NAME_CAPACITY, device: self.handle }),
    {
        DriverCall::DeviceGetName { capacity: DEVICE_NAME_CAPACITY, device: self.handle }
    }

    /// The device's name from the driver's answer to `name_call`: the text
    /// of the bytes of `buf` before the first NUL (none when there is no
    /// NUL), with invalid UTF-8 replaced.
    pub fn name(&self, status: u32, buf: &[u8]) -> (r: CudaResult<String>)
        ensures
            status == 0 <==> r is Ok,
            r matches Ok(v) ==> v@ == utf8_lossy(before_nul(buf@)),
            r matches Err(e) ==> e == error_of(status),
    {
        cuda_error(status)?;
        let bytes = text_before_nul(buf);
        Ok(lossy_text(bytes.as_slice()))
    }

    /// The request for the device's 128-bit UUID.
    pub fn uuid(&self) -> (r: DriverCall)
        ensures
            r == (DriverCall::DeviceGetUuid { device: self.handle }),
    {
        DriverCall::DeviceGetUuid { device: self.handle }
    }

    /// The request for the device's total memory, in bytes.
    pub fn memory_size(&self) -> (r: DriverCall)
        ensures
            r == (DriverCall::DeviceTotalMem { device: self.handle }),
    {
        DriverCall::DeviceTotalMem { device: self.handle }
    }

    /// The request for one attribute of the device.
    pub fn get_attribute(&self, attribute: DeviceAttribute) -> (r: DriverCall)
        ensures
            r == (DriverCall::DeviceGetAttribute {
                attribute: attribute.spec_code(),
                device: self.handle,
            }),
    {
        DriverCall::DeviceGetAttribute { attribute: attribute.code(), device: self.handle }
    }

    /// The request for the largest width of a linear 1D texture of `channels`
    /// channels of `format`.
    pub fn get_texture_1d_linear_max_width(&self, format: CudaArrayFormat, channels: u32) -> (r:
        DriverCall)
        ensures
            r == (DriverCall::DeviceGetTexture1DLinearMaxWidth {
                format: format.spec_code(),
                channels,
                device: self.handle,
            }),
    {
        DriverCall::DeviceGetTexture1DLinearMaxWidth {
            format: format.code(),
            channels,
            device: self.handle,
        }
    }
}

/// The text that `String::from_utf8_lossy` reads from some bytes.
pub uninterp spec fn utf8_lossy(b: Seq<u8>) -> Seq<char>;

/// Relies on `String::from_utf8_lossy`: the bytes read as UTF-8, each
/// invalid sequence replaced by U+FFFD; the text depends on the bytes alone.
#[verifier::external_body]
fn lossy_text(b: &[u8]) -> (r: String)
    ensures
        r@ == utf8_lossy(b@),
{
    String::from_utf8_lossy(b).into_owned()
}

/// How many devices a count reported by the driver stands for: a
/// negative count stands for none.
pub open spec fn device_count(count: i32) -> nat {
    if count < 0 {
        0
    } else {
        count as nat
    }
}

/// The devices found so far while walking the driver's device ordinals.
pub struct DeviceList {
    count: u32,
    devices: Vec<Device>,
}

impl DeviceList {
    /// How many devices the driver reported.
    pub closed spec fn expected(&self) -> nat {
        self.count as nat
    }

    /// The handles recorded so far, by ordinal.
    pub closed spec fn found(&self) -> Seq<Device> {
        self.devices@
    }

    pub closed spec fn wf(&self) -> bool {
        self.devices@.len() <= self.count <= i32::MAX
    }

    /// Whether every ordinal has been resolved.
    pub fn is_complete(&self) -> (r: bool)
        requires
            self.wf(),
        ensures
            r == (self.found().len() == self.expected()),
    {
        self.devices.len() == self.count as usize
    }

    /// The request that resolves the next ordinal, or `None` when all are.
    pub fn next_call(&self) -> (r: Option<DriverCall>)
        requires
            self.wf(),
        ensures
            self.found().len() == self.expected() <==> r is None,
            r matches Some(c) ==> c == (DriverCall::DeviceGet { ordinal: self.found().len() as i32 }),
    {
        if self.devices.len() == self.count as usize {
            None
        } else {
            Some(DriverCall::DeviceGet { ordinal: self.devices.len() as i32 })
        }
    }

    /// Records the driver's answer for the next ordinal.
    pub fn record(self, status: u32, handle: i32) -> (r: CudaResult<DeviceList>)
        requires
            self.wf(),
            self.found().len() < self.expected(),
        ensures
            status == 0 <==> r is Ok,
            r matches Ok(l) ==> l.wf() && l.expected() == self.expected()
                && l.found() == self.found().push(Device { handle }),
            r matches Err(e) ==> e == error_of(status),
    {
        cuda_error(status)?;
        let mut devices = self.devices;
        devices.push(Device { handle });
        Ok(DeviceList { count: self.count, devices })
    }

    /// The devices, one for each ordinal, in order.
    pub fn finish(self) -> (r: Vec<Device>)
        requires
            self.wf(),
            self.found().len() == self.expected(),
        ensures
            r@ == self.found(),
            r@.len() == self.expected(),
    {
        self.devices
    }
}

impl Cuda {
    /// The request that counts the devices.
    pub fn list_devices_call() -> (r: DriverCall)
        ensures
            r == DriverCall::DeviceGetCount,
    {
        DriverCall::DeviceGetCount
    }

    /// Starts the walk over the devices from the driver's count; a negative
    /// count is read as none.
    pub fn start_device_list(status: u32, count: i32) -> (r: CudaResult<DeviceList>)
        ensures
            status == 0 <==> r is Ok,
            r matches Ok(l) ==> l.wf() && l.found().len() == 0 && l.expected() == (if count < 0 {
                0
            } else {
                count as nat
            }),
            r matches Err(e) ==> e == error_of(status),
    {
        cuda_error(status)?;
        let count: u32 = if count < 0 {
            0
        } else {
            count as u32
        };
        Ok(DeviceList { count, devices: Vec::new() })
    }

    /// The devices, from the driver's answers: its count, then for each
    /// ordinal in order the status and handle of resolving it. The walk
    /// stops at the first failure, whose error is the result.
    pub fn list_devices(count_status: u32, count: i32, statuses: &[u32], handles: &[i32]) -> (r: CudaResult<Vec<Device>>)
        requires
            count_status == 0 ==> statuses@.len() == device_count(count) && handles@.len() == device_count(count),
        ensures
            r is Ok <==> count_status == 0 && forall|i: int| 0 <= i < device_count(count) ==> statuses@[i] == 0,
            r matches Ok(v) ==> v@.len() == device_count(count)
                && forall|i: int| 0 <= i < v@.len() ==> (#[trigger] v@[i]).handle == handles@[i],
            r matches Ok(v) ==> ((forall|i: int, j: int| 0 <= i < j < handles@.len() ==> handles@[i] != handles@[j])
                ==> forall|i: int, j: int| 0 <= i < j < v@.len() ==> v@[i].handle != v@[j].handle),
            r matches Err(e) ==> if count_status != 0 {
                e == error_of(count_status)
            } else {
                exists|i: int| 0 <= i < device_count(count) && statuses@[i] != 0
                    && (forall|j: int| 0 <= j < i ==> statuses@[j] == 0) && e == error_of(statuses@[i])
            },
    {
        let mut list = Cuda::start_device_list(count_status, count)?;
        let n = list.count as usize;
        let mut i: usize = 0;
        while i < n
            invariant
                count_status == 0,
                n == device_count(count),
                statuses@.len() == n && handles@.len() == n,
                list.wf(),
                list.expected() == n,
                i == list.found().len(),
                i <= n,
                forall|j: int| 0 <= j < i ==> statuses@[j] == 0,
                forall|j: int| 0 <= j < i ==> (#[trigger] list.found()[j]).handle == handles@[j],
            decreases n - i,
        {
            let ghost before = list.found();
            list = match list.record(statuses[i], handles[i]) {
                Ok(l) => l,
                Err(e) => {
                    assert(statuses@[i as int] != 0);
                    return Err(e);
                },
            };
            proof {
                assert(list.found()[i as int] == (Device { handle: handles@[i as int] }));
                assert forall|j: int| 0 <= j < i + 1 implies (#[trigger] list.found()[j]).handle == handles@[j] by {
                    if j < i {
                        assert(list.found()[j] == before[j]);
                    }
                }
            }
            i += 1;
        }
        let v = list.finish();
        assert forall|a: int, b: int| (forall|i: int, j: int| 0 <= i < j < handles@.len() ==> handles@[i] != handles@[j])
            && 0 <= a < b < v@.len() implies v@[a].handle != v@[b].handle by {
            assert(v@[a].handle == handles@[a]);
            assert(v@[b].handle == handles@[b]);
        }
        Ok(v)
    }

    /// The request for the driver's version.
    pub fn version_call() -> (r: DriverCall)
        ensures
            r == DriverCall::DriverGetVersion,
    {
        DriverCall::DriverGetVersion
    }

    /// The driver's version from its answer to `version_call`.
    pub fn version(status: u32, raw: i32) -> (r: CudaResult<CudaVersion>)
        ensures
            r == outcome(status, decode_version(raw as u32)),
    {
        complete(status, CudaVersion::from_raw(raw as u32))
    }
}

} // verus!
