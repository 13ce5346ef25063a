use std::rc::Rc;

use vstd::prelude::*;

use crate::context::Handle;
use crate::driver::{complete, DriverCall};
use crate::error::{cuda_error, error_of, CudaResult};
use crate::stream::Stream;

verus! {

/// A range of device memory in one context: where it starts and how many
/// bytes it spans.
pub struct DeviceRange {
    pub context: u64,
    pub addr: int,
    pub len: nat,
}

/// The part `[from, to)` of a range.
pub open spec fn sub_range(r: DeviceRange, from: int, to: int) -> DeviceRange {
    DeviceRange { context: r.context, addr: r.addr + from, len: (to - from) as nat }
}

/// The `len` bytes that device memory `mem` holds from `addr` on.
pub open spec fn bytes_at(mem: Map<int, u8>, addr: int, len: nat) -> Seq<u8> {
    Seq::new(len, |i: int| mem[addr + i])
}

/// Whether a range lies within the 64-bit address space.
pub open spec fn fits_u64(r: DeviceRange) -> bool {
    r.addr >= 0 && r.addr + r.len <= u64::MAX
}

/// Device memory after `data` has been written from `addr` on.
pub open spec fn written(mem: Map<int, u8>, addr: int, data: Seq<u8>) -> Map<int, u8> {
    Map::new(
        |a: int| mem.dom().contains(a) || (addr <= a < addr + data.len()),
        |a: int|
            if addr <= a < addr + data.len() {
                data[a - addr]
            } else {
                mem[a]
            },
    )
}

/// A view of device memory: an address and a length, together with the
/// handle of the context that holds it. Views may alias; none owns memory.
pub struct DevicePtr<'a> {
    handle: Rc<Handle<'a>>,
    inner: u64,
    len: u64,
}

impl<'a> View for DevicePtr<'a> {
    type V = DeviceRange;

    closed spec fn view(&self) -> DeviceRange {
        DeviceRange {
            context: self.handle.spec_context().raw(),
            addr: self.inner as int,
            len: self.len as nat,
        }
    }
}

/// A copy between two views: within one context a plain copy, across
/// contexts a peer copy.
pub open spec fn copy_call(src: DeviceRange, dst: DeviceRange) -> DriverCall {
    if src.context == dst.context {
        DriverCall::Memcpy { dst: dst.addr as u64, src: src.addr as u64, len: src.len as u64 }
    } else {
        DriverCall::MemcpyPeer {
            dst: dst.addr as u64,
            dst_context: dst.context,
            src: src.addr as u64,
            src_context: src.context,
            len: src.len as u64,
        }
    }
}

/// The queued form of `copy_call`.
pub open spec fn copy_call_async(src: DeviceRange, dst: DeviceRange, stream: u64) -> DriverCall {
    if src.context == dst.context {
        DriverCall::MemcpyAsync {
            dst: dst.addr as u64,
            src: src.addr as u64,
            len: src.len as u64,
            stream,
        }
    } else {
        DriverCall::MemcpyPeerAsync {
            dst: dst.addr as u64,
            dst_context: dst.context,
            src: src.addr as u64,
            src_context: src.context,
            len: src.len as u64,
            stream,
        }
    }
}

impl<'a> DevicePtr<'a> {
    #[verifier::type_invariant]
    spec fn fits(&self) -> bool {
        self.inner + self.len <= u64::MAX
    }

    /// The handle of the context that holds the memory.
    pub closed spec fn spec_handle(&self) -> Rc<Handle<'a>> {
        self.handle
    }

    /// The view of `len` bytes at `ptr`, in the context of `handle`.
    pub fn from_raw_parts(handle: Rc<Handle<'a>>, ptr: u64, len: u64) -> (r: DevicePtr<'a>)
        requires
            ptr + len <= u64::MAX,
        ensures
            r@ == (DeviceRange { context: handle.spec_context().raw(), addr: ptr as int, len: len as nat }),
            r.spec_handle() == handle,
    {
        DevicePtr { handle, inner: ptr, len }
    }

    /// The address of the first byte.
    pub fn as_raw(&self) -> (r: u64)
        ensures
            r == self@.addr,
    {
        self.inner
    }

    /// The number of bytes.
    pub fn len(&self) -> (r: u64)
        ensures
            r == self@.len,
    {
        self.len
    }

    /// Whether the view spans no bytes.
    pub fn is_empty(&self) -> (r: bool)
        ensures
            r == (self@.len == 0),
    {
        self.len == 0
    }

    /// The handle of the context that holds the memory.
    pub fn handle(&self) -> (r: &Rc<Handle<'a>>)
        ensures
            *r == self.spec_handle(),
    {
        &self.handle
    }

    /// Another handle on the same bytes.
    pub fn clone_view(&self) -> (r: DevicePtr<'a>)
        ensures
            r@ == self@,
            r.spec_handle() == self.spec_handle(),
    {
        proof {
            use_type_invariant(self);
        }
        DevicePtr { handle: self.handle.clone(), inner: self.inner, len: self.len }
    }

    /// The view of bytes `[from, to)` of this one.
    pub fn subslice(&self, from: u64, to: u64) -> (r: DevicePtr<'a>)
        requires
            from <= to <= self@.len,
        ensures
            r@ == sub_range(self@, from as int, to as int),
            r.spec_handle() == self.spec_handle(),
    {
        proof {
            use_type_invariant(self);
        }
        DevicePtr { handle: self.handle.clone(), inner: self.inner + from, len: to - from }
    }

    /// The request that copies this view into `target`, which must be as
    /// long; across contexts the copy is a peer copy.
    pub fn copy_to<'b>(&self, target: &DevicePtr<'b>) -> (r: DriverCall)
        requires
            self@.len == target@.len,
        ensures
            r == copy_call(self@, target@),
    {
        let same = self.handle.context().as_raw() == target.handle.context().as_raw();
        if same {
            DriverCall::Memcpy { dst: target.inner, src: self.inner, len: self.len }
        } else {
            DriverCall::MemcpyPeer {
                dst: target.inner,
                dst_context: target.handle.context().as_raw(),
                src: self.inner,
                src_context: self.handle.context().as_raw(),
                len: self.len,
            }
        }
    }

    /// The queued form of `copy_to`, on `stream`.
    pub fn copy_to_stream<'b, 'c>(&self, target: &DevicePtr<'b>, stream: &mut Stream<'c>) -> (r:
        DriverCall)
        requires
            self@.len == target@.len,
        ensures
            *final(stream) == *old(stream),
            r == copy_call_async(self@, target@, old(stream).raw()),
    {
        let same = self.handle.context().as_raw() == target.handle.context().as_raw();
        if same {
            DriverCall::MemcpyAsync {
                dst: target.inner,
                src: self.inner,
                len: self.len,
                stream: stream.as_raw(),
            }
        } else {
            DriverCall::MemcpyPeerAsync {
                dst: target.inner,
                dst_context: target.handle.context().as_raw(),
                src: self.inner,
                src_context: self.handle.context().as_raw(),
                len: self.len,
                stream: stream.as_raw(),
            }
        }
    }

    /// The request that copies `source`, which must be as long, into this view.
    pub fn copy_from<'b>(&self, source: &DevicePtr<'b>) -> (r: DriverCall)
        requires
            self@.len == source@.len,
        ensures
            r == copy_call(source@, self@),
    {
        source.copy_to(self)
    }

    /// The queued form of `copy_from`, on `stream`.
    pub fn copy_from_stream<'b, 'c>(&self, source: &DevicePtr<'b>, stream: &mut Stream<'c>) -> (r:
        DriverCall)
        requires
            self@.len == source@.len,
        ensures
            *final(stream) == *old(stream),
            r == copy_call_async(source@, self@, old(stream).raw()),
    {
        source.copy_to_stream(self, stream)
    }

    /// The request that reads the whole view into a host buffer of its length.
    pub fn load(&self) -> (r: DriverCall)
        ensures
            r == load_call(self@),
            fits_u64(self@),
    {
        proof {
            use_type_invariant(self);
        }
        DriverCall::MemcpyDtoH { src: self.inner, len: self.len }
    }

    /// The bytes read, from the driver's answer to `load`.
    pub fn loaded(&self, status: u32, data: Vec<u8>) -> (r: CudaResult<Vec<u8>>)
        requires
            status == 0 ==> data@.len() == self@.len,
        ensures
            status == 0 <==> r is Ok,
            r matches Ok(v) ==> v@ == data@ && v@.len() == self@.len,
            r matches Err(e) ==> e == error_of(status),
    {
        complete(status, data)
    }

    /// The queued form of `load`: the stream retains a buffer of the view's
    /// length, which `Stream::sync` hands back filled. The request names
    /// that buffer by its place among the retained ones.
    pub fn load_stream(&self, stream: &mut Stream<'a>) -> (r: DriverCall)
        requires
            old(stream).pending().len() < usize::MAX,
            self@.len <= usize::MAX,
        ensures
            final(stream).pending() == old(stream).pending().push(Seq::new(self@.len, |i: int| 0u8)),
            final(stream).raw() == old(stream).raw(),
            final(stream).spec_handle() == old(stream).spec_handle(),
            r == (DriverCall::MemcpyDtoHAsync {
                src: self@.addr as u64,
                len: self@.len as u64,
                pending: old(stream).pending().len() as usize,
                stream: old(stream).raw(),
            }),
    {
        let mut buf: Vec<u8> = Vec::new();
        let n = self.len as usize;
        let mut i: usize = 0;
        while i < n
            invariant
                i <= n,
                buf@ == Seq::new(i as nat, |k: int| 0u8),
            decreases n - i,
        {
            buf.push(0);
            i += 1;
            assert(buf@ =~= Seq::new(i as nat, |k: int| 0u8));
        }
        let place = stream.retain(buf);
        DriverCall::MemcpyDtoHAsync { src: self.inner, len: self.len, pending: place, stream: stream.as_raw() }
    }

    /// The request that writes `data`, which must be exactly as long as the
    /// view, to the device.
    pub fn store(&self, data: &[u8]) -> (r: DriverCall)
        requires
            data@.len() == self@.len,
        ensures
            r matches DriverCall::MemcpyHtoD { dst, data: d } && dst == self@.addr && d@ == data@,
    {
        DriverCall::MemcpyHtoD { dst: self.inner, data: copy_bytes(data) }
    }

    /// The queued form of `store`: the stream retains a copy of `data` until
    /// it is synchronised, and the request names that copy by its place.
    pub fn store_stream(&self, data: &[u8], stream: &mut Stream<'a>) -> (r: DriverCall)
        requires
            data@.len() == self@.len,
            old(stream).pending().len() < usize::MAX,
        ensures
            final(stream).pending() == old(stream).pending().push(data@),
            final(stream).raw() == old(stream).raw(),
            final(stream).spec_handle() == old(stream).spec_handle(),
            r == (DriverCall::MemcpyHtoDAsync {
                dst: self@.addr as u64,
                pending: old(stream).pending().len() as usize,
                stream: old(stream).raw(),
            }),
    {
        let place = stream.retain(copy_bytes(data));
        DriverCall::MemcpyHtoDAsync { dst: self.inner, pending: place, stream: stream.as_raw() }
    }

    /// The request that sets every byte of the view to `data`.
    pub fn memset_d8(&self, data: u8) -> (r: DriverCall)
        ensures
            r == (DriverCall::MemsetD8 { dst: self@.addr as u64, value: data, count: self@.len as u64 }),
    {
        DriverCall::MemsetD8 { dst: self.inner, value: data, count: self.len }
    }

    /// The queued form of `memset_d8`.
    pub fn memset_d8_stream(&self, data: u8, stream: &mut Stream<'a>) -> (r: DriverCall)
        ensures
            *final(stream) == *old(stream),
            r == (DriverCall::MemsetD8Async {
                dst: self@.addr as u64,
                value: data,
                count: self@.len as u64,
                stream: old(stream).raw(),
            }),
    {
        DriverCall::MemsetD8Async {
            dst: self.inner,
            value: data,
            count: self.len,
            stream: stream.as_raw(),
        }
    }

    /// The request that sets every 2-byte lane of the view to `data`; the
    /// length must be even.
    pub fn memset_d16(&self, data: u16) -> (r: DriverCall)
        requires
            self@.len % 2 == 0,
        ensures
            r == (DriverCall::MemsetD16 {
                dst: self@.addr as u64,
                value: data,
                count: (self@.len / 2) as u64,
            }),
    {
        DriverCall::MemsetD16 { dst: self.inner, value: data, count: self.len / 2 }
    }

    /// The queued form of `memset_d16`.
    pub fn memset_d16_stream(&self, data: u16, stream: &mut Stream<'a>) -> (r: DriverCall)
        requires
            self@.len % 2 == 0,
        ensures
            *final(stream) == *old(stream),
            r == (DriverCall::MemsetD16Async {
                dst: self@.addr as u64,
                value: data,
                count: (self@.len / 2) as u64,
                stream: old(stream).raw(),
            }),
    {
        DriverCall::MemsetD16Async {
            dst: self.inner,
            value: data,
            count: self.len / 2,
            stream: stream.as_raw(),
        }
    }

    /// The request that sets every 4-byte lane of the view to `data`; the
    /// length must be a multiple of four.
    pub fn memset_d32(&self, data: u32) -> (r: DriverCall)
        requires
            self@.len % 4 == 0,
        ensures
            r == (DriverCall::MemsetD32 {
                dst: self@.addr as u64,
                value: data,
                count: (self@.len / 4) as u64,
            }),
    {
        DriverCall::MemsetD32 { dst: self.inner, value: data, count: self.len / 4 }
    }

    /// The queued form of `memset_d32`.
    pub fn memset_d32_stream(&self, data: u32, stream: &mut Stream<'a>) -> (r: DriverCall)
        requires
            self@.len % 4 == 0,
        ensures
            *final(stream) == *old(stream),
            r == (DriverCall::MemsetD32Async {
                dst: self@.addr as u64,
                value: data,
                count: (self@.len / 4) as u64,
                stream: old(stream).raw(),
            }),
    {
        DriverCall::MemsetD32Async {
            dst: self.inner,
            value: data,
            count: self.len / 4,
            stream: stream.as_raw(),
        }
    }
}

/// A copy of host bytes.
pub fn copy_bytes(data: &[u8]) -> (r: Vec<u8>)
    ensures
        r@ == data@,
{
    let mut out: Vec<u8> = Vec::new();
    let mut i: usize = 0;
    while i < data.len()
        invariant
            i <= data@.len(),
            out@ == data@.take(i as int),
        decreases data.len() - i,
    {
        out.push(data[i]);
        i += 1;
        assert(out@ =~= data@.take(i as int));
    }
    assert(out@ =~= data@);
    out
}

/// An allocation of device memory, owned: it is released once, by
/// `free_call`, which consumes it.
pub struct DeviceBox<'a> {
    inner: DevicePtr<'a>,
}

impl<'a> View for DeviceBox<'a> {
    type V = DeviceRange;

    closed spec fn view(&self) -> DeviceRange {
        self.inner@
    }
}

impl<'a> DeviceBox<'a> {
    /// The handle of the context that holds the allocation.
    pub closed spec fn spec_handle(&self) -> Rc<Handle<'a>> {
        self.inner.spec_handle()
    }

    /// The request that allocates `size` bytes.
    pub fn alloc_call(size: u64) -> (r: DriverCall)
        ensures
            r == (DriverCall::MemAlloc { size }),
    {
        DriverCall::MemAlloc { size }
    }

    /// The allocation of `size` bytes from the driver's answer to
    /// `alloc_call`; an allocation never wraps around the address space.
    pub fn allocate(handle: &Rc<Handle<'a>>, size: u64, status: u32, raw: u64) -> (r: CudaResult<DeviceBox<'a>>)
        requires
            status == 0 ==> raw + size <= u64::MAX,
        ensures
            status == 0 <==> r is Ok,
            r matches Ok(b) ==> b@ == (DeviceRange {
                context: handle.spec_context().raw(),
                addr: raw as int,
                len: size as nat,
            }) && b.spec_handle() == *handle,
            r matches Err(e) ==> e == error_of(status),
    {
        cuda_error(status)?;
        Ok(DeviceBox { inner: DevicePtr { handle: handle.clone(), inner: raw, len: size } })
    }

    /// The request that allocates room for `input`.
    pub fn new_call(input: &[u8]) -> (r: DriverCall)
        ensures
            r == (DriverCall::MemAlloc { size: input@.len() as u64 }),
    {
        DriverCall::MemAlloc { size: input.len() as u64 }
    }

    /// From the driver's answer to `new_call`: the allocation, and the
    /// request that fills it with `input`.
    pub fn new(handle: &Rc<Handle<'a>>, input: &[u8], status: u32, raw: u64) -> (r: CudaResult<(DeviceBox<'a>, DriverCall)>)
        requires
            status == 0 ==> raw + input@.len() <= u64::MAX,
        ensures
            status == 0 <==> r is Ok,
            r matches Ok((b, c)) ==> b@ == (DeviceRange {
                context: handle.spec_context().raw(),
                addr: raw as int,
                len: input@.len(),
            }) && b.spec_handle() == *handle
                && (c matches DriverCall::MemcpyHtoD { dst, data } && dst == raw && data@ == input@),
            r matches Err(e) ==> e == error_of(status),
    {
        let b = DeviceBox::allocate(handle, input.len() as u64, status, raw)?;
        let c = b.inner.store(input);
        Ok((b, c))
    }

    /// From the driver's answer to `new_call`: the allocation, and the
    /// queued request that fills it with `input`, which `stream` retains.
    pub fn new_stream(
        handle: &Rc<Handle<'a>>,
        input: &[u8],
        stream: &mut Stream<'a>,
        status: u32,
        raw: u64,
    ) -> (r: CudaResult<(DeviceBox<'a>, DriverCall)>)
        requires
            status == 0 ==> raw + input@.len() <= u64::MAX,
            old(stream).pending().len() < usize::MAX,
        ensures
            status == 0 <==> r is Ok,
            r matches Ok((b, c)) ==> b@ == (DeviceRange {
                context: handle.spec_context().raw(),
                addr: raw as int,
                len: input@.len(),
            }) && b.spec_handle() == *handle && c == (DriverCall::MemcpyHtoDAsync {
                dst: raw,
                pending: old(stream).pending().len() as usize,
                stream: old(stream).raw(),
            }) && final(stream).pending() == old(stream).pending().push(input@),
            r is Err ==> *final(stream) == *old(stream),
            r matches Err(e) ==> e == error_of(status),
            final(stream).raw() == old(stream).raw(),
            final(stream).spec_handle() == old(stream).spec_handle(),
    {
        let b = DeviceBox::allocate(handle, input.len() as u64, status, raw)?;
        let c = b.inner.store_stream(input, stream);
        Ok((b, c))
    }

    /// Takes ownership of the memory that `raw` views.
    pub fn from_raw(raw: DevicePtr<'a>) -> (r: DeviceBox<'a>)
        ensures
            r@ == raw@,
            r.spec_handle() == raw.spec_handle(),
    {
        DeviceBox { inner: raw }
    }

    /// The view of the whole allocation.
    pub fn as_ptr(&self) -> (r: &DevicePtr<'a>)
        ensures
            r@ == self@,
            r.spec_handle() == self.spec_handle(),
    {
        &self.inner
    }

    /// Gives the allocation up without releasing it.
    pub fn leak(self) {
    }

    /// The request that releases the allocation; it consumes the box, so
    /// the memory is released at most once.
    pub fn free_call(self) -> (r: DriverCall)
        ensures
            r == (DriverCall::MemFree { ptr: self@.addr as u64 }),
    {
        DriverCall::MemFree { ptr: self.inner.inner }
    }
}

/// The bytes of `count` 2-byte lanes that each hold `v`, low byte first.
pub open spec fn lanes16(v: u16, count: nat) -> Seq<u8> {
    Seq::new(2 * count, |i: int| if i % 2 == 0 { (v % 256) as u8 } else { (v / 256) as u8 })
}

/// The bytes of `count` 4-byte lanes that each hold `v`, low byte first.
pub open spec fn lanes32(v: u32, count: nat) -> Seq<u8> {
    Seq::new(4 * count, |i: int| ((v as int / pow256(i % 4)) % 256) as u8)
}

/// 256 to the power `k`, for a byte offset within a lane.
pub open spec fn pow256(k: int) -> int {
    if k == 0 {
        1
    } else if k == 1 {
        256
    } else if k == 2 {
        65536
    } else {
        16777216
    }
}

/// The request that reads a whole range.
pub open spec fn load_call(r: DeviceRange) -> DriverCall {
    DriverCall::MemcpyDtoH { src: r.addr as u64, len: r.len as u64 }
}

/// Device memory after the driver carried out a blocking request that
/// writes it: a store, a copy within one context, or a fill. Requests that
/// write no device memory leave it as it is; the queued and peer forms are
/// not modelled here and leave it as it is too.
pub open spec fn effect(mem: Map<int, u8>, call: DriverCall) -> Map<int, u8> {
    match call {
        DriverCall::MemcpyHtoD { dst, data } => written(mem, dst as int, data@),
        DriverCall::Memcpy { dst, src, len } => written(mem, dst as int, bytes_at(mem, src as int, len as nat)),
        DriverCall::MemsetD8 { dst, value, count } => written(
            mem,
            dst as int,
            Seq::new(count as nat, |i: int| value),
        ),
        DriverCall::MemsetD16 { dst, value, count } => written(mem, dst as int, lanes16(value, count as nat)),
        DriverCall::MemsetD32 { dst, value, count } => written(mem, dst as int, lanes32(value, count as nat)),
        _ => mem,
    }
}

/// The bytes that a blocking read request returns from device memory
/// `mem`; other requests return none.
pub open spec fn read_result(mem: Map<int, u8>, call: DriverCall) -> Seq<u8> {
    match call {
        DriverCall::MemcpyDtoH { src, len } => bytes_at(mem, src as int, len as nat),
        _ => Seq::empty(),
    }
}

/// A view of part of a range, taken in two steps, is the view of that part
/// taken at once, and loading it reads the parent's bytes at those offsets.
pub proof fn lemma_subslice_compose(mem: Map<int, u8>, r: DeviceRange, a: int, b: int, c: int)
    requires
        0 <= a <= b <= c <= r.len,
        fits_u64(r),
    ensures
        sub_range(sub_range(r, a, c), b - a, c - a) == sub_range(r, b, c),
        read_result(mem, load_call(sub_range(r, a, b))) == read_result(mem, load_call(r)).subrange(a, b),
        read_result(mem, load_call(sub_range(r, b, c))) == read_result(mem, load_call(r)).subrange(b, c),
{
    assert(read_result(mem, load_call(sub_range(r, a, b))) =~= read_result(mem, load_call(r)).subrange(a, b));
    assert(read_result(mem, load_call(sub_range(r, b, c))) =~= read_result(mem, load_call(r)).subrange(b, c));
}

/// A box filled by the request that `DeviceBox::new` returns reads back,
/// through `load`, exactly the input.
pub proof fn lemma_new_then_load(mem: Map<int, u8>, r: DeviceRange, input: Seq<u8>, store: DriverCall)
    requires
        input.len() == r.len,
        fits_u64(r),
        store matches DriverCall::MemcpyHtoD { dst, data } && dst == r.addr && data@ == input,
    ensures
        read_result(effect(mem, store), load_call(r)) == input,
{
    assert(read_result(effect(mem, store), load_call(r)) =~= input);
}

/// A copy between two disjoint ranges of equal length in one context
/// leaves the target holding the source's bytes.
pub proof fn lemma_copy_then_load(mem: Map<int, u8>, src: DeviceRange, dst: DeviceRange)
    requires
        src.context == dst.context,
        src.len == dst.len,
        fits_u64(src),
        fits_u64(dst),
        src.addr + src.len <= dst.addr || dst.addr + dst.len <= src.addr,
    ensures
        read_result(effect(mem, copy_call(src, dst)), load_call(dst)) == read_result(mem, load_call(src)),
{
    assert(read_result(effect(mem, copy_call(src, dst)), load_call(dst)) =~= read_result(mem, load_call(src)));
}

/// After the request that `memset_d16` returns on a range of even length,
/// each 2-byte lane read back through `load` decodes to the value.
pub proof fn lemma_memset_d16_lanes(mem: Map<int, u8>, r: DeviceRange, v: u16, k: int)
    requires
        r.len % 2 == 0,
        fits_u64(r),
        0 <= k < r.len / 2,
    ensures
        ({
            let call = DriverCall::MemsetD16 { dst: r.addr as u64, value: v, count: (r.len / 2) as u64 };
            let b = read_result(effect(mem, call), load_call(r));
            b[2 * k] as int + 256 * (b[2 * k + 1] as int) == v as int
        }),
{
    let data = lanes16(v, r.len / 2);
    assert(data.len() == r.len);
    assert((2 * k) % 2 == 0);
    assert((2 * k + 1) % 2 == 1);
    assert(data[2 * k] == (v % 256) as u8);
    assert(data[2 * k + 1] == (v / 256) as u8);
}

} // verus!
