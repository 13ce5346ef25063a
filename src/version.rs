use vstd::prelude::*;

verus! {

/// A driver, API or compute-capability version.
#[derive(Debug, Clone, Copy, PartialEq, Eq, Structural)]
pub struct CudaVersion {
    pub major: u32,
    pub minor: u32,
}

/// The version that the driver's single number `v` encodes.
pub open spec fn decode_version(v: u32) -> CudaVersion {
    CudaVersion { major: v / 1000, minor: (v % 1000) / 10 }
}

impl CudaVersion {
    /// Decodes the driver's number: thousands give the major version, the
    /// next two digits the minor one.
    pub fn from_raw(v: u32) -> (r: CudaVersion)
        ensures
            r == decode_version(v),
    {
        CudaVersion { major: v / 1000, minor: (v % 1000) / 10 }
    }

    /// The version `major.minor`.
    pub fn from_pair(major: u32, minor: u32) -> (r: CudaVersion)
        ensures
            r.major == major,
            r.minor == minor,
    {
        CudaVersion { major, minor }
    }

    /// The version as a `(major, minor)` pair.
    pub fn into_pair(self) -> (r: (u32, u32))
        ensures
            r == (self.major, self.minor),
    {
        (self.major, self.minor)
    }
}

impl From<u32> for CudaVersion {
    fn from(v: u32) -> (r: CudaVersion) {
        CudaVersion::from_raw(v)
    }
}

impl vstd::std_specs::convert::FromSpecImpl<u32> for CudaVersion {
    open spec fn obeys_from_spec() -> bool {
        true
    }

    open spec fn from_spec(v: u32) -> CudaVersion {
        decode_version(v)
    }
}

/// Encoding a version the driver's way and decoding it gives it back.
pub proof fn lemma_version_round_trip(major: u32, minor: u32)
    requires
        minor < 100,
        major * 1000 + minor * 10 <= u32::MAX,
    ensures
        decode_version((major * 1000 + minor * 10) as u32) == (CudaVersion { major, minor }),
{
    assert((major * 1000 + minor * 10) / 1000 == major) by (nonlinear_arith)
        requires minor < 100;
    assert(((major * 1000 + minor * 10) % 1000) / 10 == minor) by (nonlinear_arith)
        requires minor < 100;
}

} // verus!
