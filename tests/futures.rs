use cuda_oxide::context::Context;
use cuda_oxide::driver::DriverCall;
use cuda_oxide::error::ErrorCode;
use cuda_oxide::future::{CudaFuture, FutureCell, FutureState, PollStep};
use cuda_oxide::stream::{Stream, StreamPool};

#[test]
fn future_waits_then_yields_once() {
    let mut cell = FutureCell::new();
    assert!(matches!(cell.poll(), PollStep::Register));
    assert!(matches!(cell.state, FutureState::Waiting));
    cell.complete();
    assert!(matches!(cell.state, FutureState::Completed(Ok(()))));
    cell.complete();
    assert!(matches!(cell.state, FutureState::Completed(Ok(()))));
    assert!(matches!(cell.poll(), PollStep::Ready(Ok(()))));
    assert!(matches!(cell.state, FutureState::Consumed));
    cell.complete();
    assert!(matches!(cell.state, FutureState::Consumed));
}

#[test]
fn completed_error_is_handed_over() {
    let mut cell = FutureCell { state: FutureState::Completed(Err(ErrorCode::LaunchFailed)) };
    cell.complete();
    assert!(matches!(cell.poll(), PollStep::Ready(Err(ErrorCode::LaunchFailed))));
}

#[test]
fn future_registers_on_its_stream_and_returns_it() {
    let mut ctx = Context::new(0, 1).unwrap();
    let handle = ctx.enter(0).unwrap();
    let stream = Stream::new(&handle, 0, 31).unwrap();
    let mut fut = CudaFuture::new(handle.clone(), stream);
    assert_eq!(fut.register_call(), DriverCall::LaunchHostFunc { stream: 31 });
    assert_eq!(fut.registered(0), None);
    assert_eq!(fut.registered(400), Some(Err(ErrorCode::InvalidHandle)));
    let mut pool = StreamPool::new();
    fut.finish(&mut pool);
    assert_eq!(pool.take().map(|s| s.as_raw()), Some(31));
}
