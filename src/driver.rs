//! The native requests that the library asks its caller to hand to the
//! driver. Each is plain data: handles and addresses as integers, flags as
//! the driver numbers them.
use vstd::prelude::*;

use crate::error::{cuda_error, error_of, CudaResult, ErrorCode};

verus! {

/// Context flag: block the calling thread on synchronisation.
pub const CTX_SCHED_BLOCKING_SYNC: u32 = 0x04;

/// Stream flag: no implicit synchronisation with the default stream.
pub const STREAM_NON_BLOCKING: u32 = 0x01;

/// Wait flag: flush remote writes before the wait completes.
pub const WAIT_FLUSH: u32 = 0x4000_0000;

/// Write flag: skip the memory barrier before the write.
pub const WRITE_NO_MEMORY_BARRIER: u32 = 0x01;

/// The size of the buffer that receives a device name.
pub const DEVICE_NAME_CAPACITY: usize = 256;

/// One call into the driver, with its arguments.
#[allow(inconsistent_fields)]
#[derive(Debug, PartialEq, Eq)]
pub enum DriverCall {
    Init { flags: u32 },
    DriverGetVersion,
    DeviceGetCount,
    DeviceGet { ordinal: i32 },
    DeviceGetName { capacity: usize, device: i32 },
    DeviceGetUuid { device: i32 },
    DeviceTotalMem { device: i32 },
    DeviceGetAttribute { attribute: u32, device: i32 },
    DeviceGetTexture1DLinearMaxWidth { format: u32, channels: u32, device: i32 },
    CtxCreate { flags: u32, device: i32 },
    CtxGetApiVersion { context: u64 },
    CtxSynchronize,
    CtxSetLimit { limit: u32, value: u64 },
    CtxGetLimit { limit: u32 },
    /// Makes `context` current on the calling thread; zero makes none current.
    CtxSetCurrent { context: u64 },
    CtxDestroy { context: u64 },
    MemAlloc { size: u64 },
    MemFree { ptr: u64 },
    Memcpy { dst: u64, src: u64, len: u64 },
    MemcpyPeer { dst: u64, dst_context: u64, src: u64, src_context: u64, len: u64 },
    MemcpyAsync { dst: u64, src: u64, len: u64, stream: u64 },
    MemcpyPeerAsync {
        dst: u64,
        dst_context: u64,
        src: u64,
        src_context: u64,
        len: u64,
        stream: u64,
    },
    /// Copies `len` bytes from the device into a host buffer of that length.
    MemcpyDtoH { src: u64, len: u64 },
    /// Copies `len` bytes from the device into the host buffer that the
    /// stream retains at `pending`.
    MemcpyDtoHAsync { src: u64, len: u64, pending: usize, stream: u64 },
    /// Copies the host bytes `data` to the device.
    MemcpyHtoD { dst: u64, data: Vec<u8> },
    /// Copies the host buffer that the stream retains at `pending` to the device.
    MemcpyHtoDAsync { dst: u64, pending: usize, stream: u64 },
    MemsetD8 { dst: u64, value: u8, count: u64 },
    MemsetD16 { dst: u64, value: u16, count: u64 },
    MemsetD32 { dst: u64, value: u32, count: u64 },
    MemsetD8Async { dst: u64, value: u8, count: u64, stream: u64 },
    MemsetD16Async { dst: u64, value: u16, count: u64, stream: u64 },
    MemsetD32Async { dst: u64, value: u32, count: u64, stream: u64 },
    StreamCreate { flags: u32 },
    StreamSynchronize { stream: u64 },
    StreamQuery { stream: u64 },
    StreamWaitValue32 { stream: u64, addr: u64, value: u32, flags: u32 },
    StreamWaitValue64 { stream: u64, addr: u64, value: u64, flags: u32 },
    StreamWriteValue32 { stream: u64, addr: u64, value: u32, flags: u32 },
    StreamWriteValue64 { stream: u64, addr: u64, value: u64, flags: u32 },
    /// Queues a host function; the caller supplies the function itself.
    LaunchHostFunc { stream: u64 },
    LaunchKernel {
        function: u64,
        grid: (u32, u32, u32),
        block: (u32, u32, u32),
        shared_mem_bytes: u32,
        stream: u64,
        params: Vec<Vec<u8>>,
    },
    StreamDestroy { stream: u64 },
    /// Opens a link session; log buffers of the given sizes come from the caller.
    LinkCreate { info_log_bytes: u32, error_log_bytes: u32, target: u32, verbose: u32, debug_info: u32 },
    /// Adds `data` to a link session; `name` is NUL-terminated.
    LinkAddData { link: u64, input_type: u32, data: Vec<u8>, name: Vec<u8> },
    LinkComplete { link: u64 },
    LinkDestroy { link: u64 },
    ModuleLoadData { image: Vec<u8> },
    ModuleLoadFatBinary { image: Vec<u8> },
    /// Resolves a kernel; `name` is NUL-terminated.
    ModuleGetFunction { module: u64, name: Vec<u8> },
    /// Resolves a global symbol; `name` is NUL-terminated.
    ModuleGetGlobal { module: u64, name: Vec<u8> },
    ModuleUnload { module: u64 },
    FuncGetAttribute { attribute: u32, function: u64 },
    FuncSetAttribute { function: u64, attribute: u32, value: i32 },
    FuncSetCacheConfig { function: u64, config: u32 },
    FuncSetSharedMemConfig { function: u64, config: u32 },
}

/// The views of a list of host buffers.
pub open spec fn views_of(bufs: Seq<Vec<u8>>) -> Seq<Seq<u8>> {
    bufs.map_values(|b: Vec<u8>| b@)
}

/// The text held in a buffer that the driver filled: the bytes before the
/// first NUL, or nothing when there is no NUL.
pub open spec fn before_nul(buf: Seq<u8>) -> Seq<u8> {
    if exists|i: int| 0 <= i < buf.len() && buf[i] == 0 {
        buf.take(
            choose|i: int| 0 <= i < buf.len() && buf[i] == 0 && forall|j: int| 0 <= j < i ==> buf[j] != 0,
        )
    } else {
        Seq::empty()
    }
}

/// The text held in a buffer that the driver filled.
pub fn text_before_nul(buf: &[u8]) -> (r: Vec<u8>)
    ensures
        r@ == before_nul(buf@),
{
    let mut i: usize = 0;
    while i < buf.len()
        invariant
            i <= buf@.len(),
            forall|j: int| 0 <= j < i ==> buf@[j] != 0,
        decreases buf.len() - i,
    {
        if buf[i] == 0 {
            let mut out: Vec<u8> = Vec::new();
            let mut k: usize = 0;
            while k < i
                invariant
                    k <= i < buf@.len(),
                    out@ == buf@.take(k as int),
                decreases i - k,
            {
                out.push(buf[k]);
                k += 1;
                assert(out@ =~= buf@.take(k as int));
            }
            proof {
                let c = choose|c: int|
                    0 <= c < buf@.len() && buf@[c] == 0 && forall|j: int| 0 <= j < c ==> buf@[j] != 0;
                assert(0 <= i < buf@.len() && buf@[i as int] == 0);
                if c < i {
                } else if c > i {
                }
                assert(c == i);
            }
            return out;
        }
        i += 1;
    }
    Vec::new()
}

/// A name as the driver reads it: its bytes and a closing NUL.
pub fn to_c_string(s: &[u8]) -> (r: Vec<u8>)
    requires
        !s@.contains(0u8),
    ensures
        r@ == s@.push(0u8),
{
    let mut out: Vec<u8> = Vec::new();
    let mut i: usize = 0;
    while i < s.len()
        invariant
            i <= s@.len(),
            out@ == s@.take(i as int),
        decreases s.len() - i,
    {
        out.push(s[i]);
        i += 1;
        assert(out@ =~= s@.take(i as int));
    }
    out.push(0);
    assert(out@ =~= s@.push(0u8));
    out
}

/// Lines put back together with a newline between each two.
pub open spec fn join_lines(lines: Seq<Seq<u8>>) -> Seq<u8>
    decreases lines.len(),
{
    if lines.len() == 0 {
        Seq::empty()
    } else if lines.len() == 1 {
        lines[0]
    } else {
        join_lines(lines.drop_last()) + seq![10u8] + lines.last()
    }
}

/// The lines of `text`, split at each newline; no line holds one. Empty
/// text has no lines.
pub fn split_lines(text: &[u8]) -> (r: Vec<Vec<u8>>)
    ensures
        text@.len() == 0 ==> r@.len() == 0,
        text@.len() > 0 ==> join_lines(views_of(r@)) == text@,
        forall|i: int| 0 <= i < r@.len() ==> !(#[trigger] r@[i]@).contains(10u8),
{
    let mut lines: Vec<Vec<u8>> = Vec::new();
    if text.len() == 0 {
        return lines;
    }
    let mut cur: Vec<u8> = Vec::new();
    let mut i: usize = 0;
    while i < text.len()
        invariant
            i <= text@.len(),
            join_lines(views_of(lines@).push(cur@)) == text@.take(i as int),
            forall|k: int| 0 <= k < lines@.len() ==> !(#[trigger] lines@[k]@).contains(10u8),
            !cur@.contains(10u8),
        decreases text.len() - i,
    {
        let b = text[i];
        let ghost before = views_of(lines@).push(cur@);
        if b == 10 {
            let done = cur;
            cur = Vec::new();
            lines.push(done);
            proof {
                let after = views_of(lines@).push(cur@);
                assert(after.drop_last() =~= before);
                assert(after.len() >= 2);
                assert(join_lines(after) =~= text@.take(i + 1));
                assert(!cur@.contains(10u8));
            }
        } else {
            cur.push(b);
            proof {
                let after = views_of(lines@).push(cur@);
                if lines@.len() == 0 {
                    assert(after.len() == 1);
                    assert(join_lines(before) == cur@.drop_last());
                    assert(join_lines(after) =~= text@.take(i + 1));
                } else {
                    assert(after.drop_last() =~= views_of(lines@));
                    assert(before.drop_last() =~= views_of(lines@));
                    assert(after.last() == cur@);
                    assert(before.last() =~= cur@.drop_last());
                    assert(join_lines(after) == join_lines(views_of(lines@)) + seq![10u8] + cur@);
                    assert(join_lines(before) == join_lines(views_of(lines@)) + seq![10u8] + cur@.drop_last());
                    assert(text@.take(i + 1) =~= text@.take(i as int).push(b));
                    assert(join_lines(after) =~= text@.take(i + 1));
                }
                assert forall|x: u8| cur@.contains(x) implies x != 10u8 by {
                    let j = choose|j: int| 0 <= j < cur@.len() && cur@[j] == x;
                    if j < cur@.len() - 1 {
                        assert(before.last()[j] == x);
                        assert(before.last().contains(x));
                    }
                }
            }
        }
        i += 1;
    }
    let ghost prev = views_of(lines@);
    let ghost last = cur@;
    lines.push(cur);
    proof {
        assert(views_of(lines@) =~= prev.push(last));
        assert(text@.take(text@.len() as int) =~= text@);
    }
    lines
}

/// What a call that yields `value` returns, given the driver's status.
pub open spec fn outcome<T>(status: u32, value: T) -> CudaResult<T> {
    if status == 0 {
        Ok(value)
    } else {
        Err(error_of(status))
    }
}

/// Turns the driver's answer to a call into its result: `value` when the
/// status is zero, else the mapped error.
pub fn complete<T>(status: u32, value: T) -> (r: CudaResult<T>)
    ensures
        r == outcome(status, value),
{
    match cuda_error(status) {
        Ok(()) => Ok(value),
        Err(e) => Err(e),
    }
}

/// What a failed release of a native resource leaves behind: the error to
/// report as a diagnostic, or nothing when the release succeeded.
pub fn teardown_diagnostic(status: u32) -> (r: Option<ErrorCode>)
    ensures
        status == 0 <==> r is None,
        r matches Some(e) ==> e == error_of(status),
{
    match cuda_error(status) {
        Ok(()) => None,
        Err(e) => Some(e),
    }
}

} // verus!
