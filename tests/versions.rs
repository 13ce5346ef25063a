use cuda_oxide::dim3::Dim3;
use cuda_oxide::driver::DriverCall;
use cuda_oxide::error::ErrorCode;
use cuda_oxide::version::CudaVersion;
use cuda_oxide::Cuda;

#[test]
fn version_number_decodes() {
    let v = CudaVersion::from_raw(11030);
    assert_eq!((v.major, v.minor), (11, 3));
    let v = CudaVersion::from(10020);
    assert_eq!(v.into_pair(), (10, 2));
    let v = CudaVersion::from_raw(9);
    assert_eq!(v.into_pair(), (0, 0));
}

#[test]
fn version_from_pair() {
    assert_eq!(CudaVersion::from_pair(8, 6), CudaVersion { major: 8, minor: 6 });
}

#[test]
fn driver_version_answer() {
    assert_eq!(Cuda::version_call(), DriverCall::DriverGetVersion);
    assert_eq!(Cuda::version(0, 11040), Ok(CudaVersion { major: 11, minor: 4 }));
    assert_eq!(Cuda::version(3, 11040), Err(ErrorCode::NotInitialized));
}

#[test]
fn dimensions_fill_with_ones() {
    assert_eq!(Dim3::from_x(7).into_tuple(), (7, 1, 1));
    assert_eq!(Dim3::from_xy(7, 8).into_tuple(), (7, 8, 1));
    assert_eq!(Dim3::new(7, 8, 9).into_tuple(), (7, 8, 9));
    assert_eq!(Dim3::from(5u32).0, (5, 1, 1));
}
