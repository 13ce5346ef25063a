//! Kernel arguments: each argument becomes one buffer of its
//! little-endian bytes, and compound values list their parts' buffers in
//! order, so the buffers line up with the kernel's arguments.
use vstd::prelude::*;

use crate::driver::views_of;
use crate::mem::{DeviceBox, DevicePtr};

verus! {

broadcast use vstd::seq_lib::group_seq_properties;

/// The `n` low bytes of `v`, least significant first.
pub open spec fn le(v: nat, n: nat) -> Seq<u8>
    decreases n,
{
    if n == 0 {
        Seq::empty()
    } else {
        seq![(v % 256) as u8] + le(v / 256, (n - 1) as nat)
    }
}

/// The `n` low bytes of `v`, least significant first.
pub fn le_bytes(v: u64, n: usize) -> (r: Vec<u8>)
    ensures
        r@ == le(v as nat, n as nat),
{
    let mut out: Vec<u8> = Vec::new();
    let mut x: u64 = v;
    let mut i: usize = 0;
    while i < n
        invariant
            i <= n,
            out@ + le(x as nat, (n - i) as nat) == le(v as nat, n as nat),
        decreases n - i,
    {
        let ghost prev = out@;
        let ghost k = (n - i) as nat;
        proof {
            assert(le(x as nat, k) == seq![(x as nat % 256) as u8] + le(x as nat / 256, (k - 1) as nat));
        }
        out.push((x % 256) as u8);
        x = x / 256;
        i += 1;
        proof {
            assert(out@ + le(x as nat, (n - i) as nat) =~= prev + (seq![(out@.last())] + le(x as nat, (n - i) as nat)));
        }
    }
    proof {
        assert(out@ + le(x as nat, 0) =~= out@);
    }
    out
}

/// Values that can be handed to a kernel as one or more arguments.
pub trait KernelParameters {
    /// The buffers of this value, one per kernel argument, in order.
    spec fn param_bytes(&self) -> Seq<Seq<u8>>;

    /// Appends this value's buffers to `out`.
    fn params(&self, out: &mut Vec<Vec<u8>>)
        ensures
            views_of(final(out)@) == views_of(old(out)@) + self.param_bytes(),
    ;
}

/// Appends one buffer.
pub fn push_buffer(out: &mut Vec<Vec<u8>>, b: Vec<u8>)
    ensures
        views_of(final(out)@) == views_of(old(out)@).push(b@),
{
    out.push(b);
    assert(views_of(out@) =~= views_of(old(out)@).push(b@));
}

impl KernelParameters for u8 {
    open spec fn param_bytes(&self) -> Seq<Seq<u8>> {
        seq![le((*self as u8) as nat, 1)]
    }

    fn params(&self, out: &mut Vec<Vec<u8>>) {
        push_buffer(out, le_bytes((*self as u8) as u64, 1));
        assert(views_of(out@) =~= views_of(old(out)@) + self.param_bytes());
    }
}

impl KernelParameters for u16 {
    open spec fn param_bytes(&self) -> Seq<Seq<u8>> {
        seq![le((*self as u16) as nat, 2)]
    }

    fn params(&self, out: &mut Vec<Vec<u8>>) {
        push_buffer(out, le_bytes((*self as u16) as u64, 2));
        assert(views_of(out@) =~= views_of(old(out)@) + self.param_bytes());
    }
}

impl KernelParameters for u32 {
    open spec fn param_bytes(&self) -> Seq<Seq<u8>> {
        seq![le((*self as u32) as nat, 4)]
    }

    fn params(&self, out: &mut Vec<Vec<u8>>) {
        push_buffer(out, le_bytes((*self as u32) as u64, 4));
        assert(views_of(out@) =~= views_of(old(out)@) + self.param_bytes());
    }
}

impl KernelParameters for u64 {
    open spec fn param_bytes(&self) -> Seq<Seq<u8>> {
        seq![le((*self as u64) as nat, 8)]
    }

    fn params(&self, out: &mut Vec<Vec<u8>>) {
        push_buffer(out, le_bytes((*self as u64) as u64, 8));
        assert(views_of(out@) =~= views_of(old(out)@) + self.param_bytes());
    }
}

impl KernelParameters for usize {
    open spec fn param_bytes(&self) -> Seq<Seq<u8>> {
        seq![le((*self as usize) as nat, 8)]
    }

    fn params(&self, out: &mut Vec<Vec<u8>>) {
        push_buffer(out, le_bytes((*self as usize) as u64, 8));
        assert(views_of(out@) =~= views_of(old(out)@) + self.param_bytes());
    }
}

impl KernelParameters for i8 {
    open spec fn param_bytes(&self) -> Seq<Seq<u8>> {
        seq![le((*self as u8) as nat, 1)]
    }

    fn params(&self, out: &mut Vec<Vec<u8>>) {
        push_buffer(out, le_bytes((*self as u8) as u64, 1));
        assert(views_of(out@) =~= views_of(old(out)@) + self.param_bytes());
    }
}

impl KernelParameters for i16 {
    open spec fn param_bytes(&self) -> Seq<Seq<u8>> {
        seq![le((*self as u16) as nat, 2)]
    }

    fn params(&self, out: &mut Vec<Vec<u8>>) {
        push_buffer(out, le_bytes((*self as u16) as u64, 2));
        assert(views_of(out@) =~= views_of(old(out)@) + self.param_bytes());
    }
}

impl KernelParameters for i32 {
    open spec fn param_bytes(&self) -> Seq<Seq<u8>> {
        seq![le((*self as u32) as nat, 4)]
    }

    fn params(&self, out: &mut Vec<Vec<u8>>) {
        push_buffer(out, le_bytes((*self as u32) as u64, 4));
        assert(views_of(out@) =~= views_of(old(out)@) + self.param_bytes());
    }
}

impl KernelParameters for i64 {
    open spec fn param_bytes(&self) -> Seq<Seq<u8>> {
        seq![le((*self as u64) as nat, 8)]
    }

    fn params(&self, out: &mut Vec<Vec<u8>>) {
        push_buffer(out, le_bytes((*self as u64) as u64, 8));
        assert(views_of(out@) =~= views_of(old(out)@) + self.param_bytes());
    }
}

impl<'a> KernelParameters for DevicePtr<'a> {
    open spec fn param_bytes(&self) -> Seq<Seq<u8>> {
        seq![le(self@.addr as nat, 8)]
    }

    fn params(&self, out: &mut Vec<Vec<u8>>) {
        push_buffer(out, le_bytes(self.as_raw(), 8));
        assert(views_of(out@) =~= views_of(old(out)@) + self.param_bytes());
    }
}

impl<'a> KernelParameters for DeviceBox<'a> {
    open spec fn param_bytes(&self) -> Seq<Seq<u8>> {
        seq![le(self@.addr as nat, 8)]
    }

    fn params(&self, out: &mut Vec<Vec<u8>>) {
        push_buffer(out, le_bytes(self.as_ptr().as_raw(), 8));
        assert(views_of(out@) =~= views_of(old(out)@) + self.param_bytes());
    }
}

impl KernelParameters for Vec<u8> {
    open spec fn param_bytes(&self) -> Seq<Seq<u8>> {
        seq![self@]
    }

    fn params(&self, out: &mut Vec<Vec<u8>>) {
        push_buffer(out, crate::mem::copy_bytes(self.as_slice()));
        assert(views_of(out@) =~= views_of(old(out)@) + self.param_bytes());
    }
}

impl<'b> KernelParameters for &'b [u8] {
    open spec fn param_bytes(&self) -> Seq<Seq<u8>> {
        seq![self@]
    }

    fn params(&self, out: &mut Vec<Vec<u8>>) {
        push_buffer(out, crate::mem::copy_bytes(self));
        assert(views_of(out@) =~= views_of(old(out)@) + self.param_bytes());
    }
}

impl<'b, T: KernelParameters> KernelParameters for &'b T {
    open spec fn param_bytes(&self) -> Seq<Seq<u8>> {
        (**self).param_bytes()
    }

    fn params(&self, out: &mut Vec<Vec<u8>>) {
        (**self).params(out);
    }
}

impl<T: KernelParameters> KernelParameters for Box<T> {
    open spec fn param_bytes(&self) -> Seq<Seq<u8>> {
        (**self).param_bytes()
    }

    fn params(&self, out: &mut Vec<Vec<u8>>) {
        (**self).params(out);
    }
}

impl KernelParameters for () {
    open spec fn param_bytes(&self) -> Seq<Seq<u8>> {
        Seq::empty()
    }

    fn params(&self, out: &mut Vec<Vec<u8>>) {
        assert(views_of(out@) =~= views_of(old(out)@) + self.param_bytes());
    }
}

impl<T: KernelParameters, const N: usize> KernelParameters for [T; N] {
    open spec fn param_bytes(&self) -> Seq<Seq<u8>> {
        Seq::new(N as nat, |i: int| self@[i].param_bytes()).flatten()
    }

    fn params(&self, out: &mut Vec<Vec<u8>>) {
        let ghost start = views_of(out@);
        let mut i: usize = 0;
        while i < N
            invariant
                i <= N,
                self@.len() == N,
                views_of(out@) == start + Seq::new(i as nat, |k: int| self@[k].param_bytes()).flatten(),
            decreases N - i,
        {
            let ghost parts = Seq::new(i as nat, |k: int| self@[k].param_bytes());
            let ghost before = views_of(out@);
            self[i].params(out);
            i += 1;
            proof {
                let next = Seq::new(i as nat, |k: int| self@[k].param_bytes());
                assert(next =~= parts.push(self@[i - 1].param_bytes()));
                parts.lemma_flatten_push(self@[i - 1].param_bytes());
                assert(views_of(out@) =~= start + next.flatten());
            }
        }
        proof {
            assert(Seq::new(i as nat, |k: int| self@[k].param_bytes()) =~= Seq::new(N as nat, |k: int| self@[k].param_bytes()));
        }
    }
}

impl<A: KernelParameters> KernelParameters for (A,) {
    open spec fn param_bytes(&self) -> Seq<Seq<u8>> {
        self.0.param_bytes()
    }

    fn params(&self, out: &mut Vec<Vec<u8>>) {
        let ghost start = views_of(out@);
        self.0.params(out);
        assert(views_of(out@) =~= start + self.param_bytes());
    }
}

impl<A: KernelParameters, B: KernelParameters> KernelParameters for (A, B) {
    open spec fn param_bytes(&self) -> Seq<Seq<u8>> {
        self.0.param_bytes() + self.1.param_bytes()
    }

    fn params(&self, out: &mut Vec<Vec<u8>>) {
        let ghost start = views_of(out@);
        self.0.params(out);
        self.1.params(out);
        assert(views_of(out@) =~= start + self.param_bytes());
    }
}

impl<A: KernelParameters, B: KernelParameters, C: KernelParameters> KernelParameters for (A, B, C) {
    open spec fn param_bytes(&self) -> Seq<Seq<u8>> {
        self.0.param_bytes() + self.1.param_bytes() + self.2.param_bytes()
    }

    fn params(&self, out: &mut Vec<Vec<u8>>) {
        let ghost start = views_of(out@);
        self.0.params(out);
        self.1.params(out);
        self.2.params(out);
        assert(views_of(out@) =~= start + self.param_bytes());
    }
}

impl<A: KernelParameters, B: KernelParameters, C: KernelParameters, D: KernelParameters> KernelParameters for (A, B, C, D) {
    open spec fn param_bytes(&self) -> Seq<Seq<u8>> {
        self.0.param_bytes() + self.1.param_bytes() + self.2.param_bytes() + self.3.param_bytes()
    }

    fn params(&self, out: &mut Vec<Vec<u8>>) {
        let ghost start = views_of(out@);
        self.0.params(out);
        self.1.params(out);
        self.2.params(out);
        self.3.params(out);
        assert(views_of(out@) =~= start + self.param_bytes());
    }
}

impl<A: KernelParameters, B: KernelParameters, C: KernelParameters, D: KernelParameters, E: KernelParameters> KernelParameters for (A, B, C, D, E) {
    open spec fn param_bytes(&self) -> Seq<Seq<u8>> {
        self.0.param_bytes() + self.1.param_bytes() + self.2.param_bytes() + self.3.param_bytes() + self.4.param_bytes()
    }

    fn params(&self, out: &mut Vec<Vec<u8>>) {
        let ghost start = views_of(out@);
        self.0.params(out);
        self.1.params(out);
        self.2.params(out);
        self.3.params(out);
        self.4.params(out);
        assert(views_of(out@) =~= start + self.param_bytes());
    }
}

impl<A: KernelParameters, B: KernelParameters, C: KernelParameters, D: KernelParameters, E: KernelParameters, F: KernelParameters> KernelParameters for (A, B, C, D, E, F) {
    open spec fn param_bytes(&self) -> Seq<Seq<u8>> {
        self.0.param_bytes() + self.1.param_bytes() + self.2.param_bytes() + self.3.param_bytes() + self.4.param_bytes() + self.5.param_bytes()
    }

    fn params(&self, out: &mut Vec<Vec<u8>>) {
        let ghost start = views_of(out@);
        self.0.params(out);
        self.1.params(out);
        self.2.params(out);
        self.3.params(out);
        self.4.params(out);
        self.5.params(out);
        assert(views_of(out@) =~= start + self.param_bytes());
    }
}

impl<A: KernelParameters, B: KernelParameters, C: KernelParameters, D: KernelParameters, E: KernelParameters, F: KernelParameters, G: KernelParameters> KernelParameters for (A, B, C, D, E, F, G) {
    open spec fn param_bytes(&self) -> Seq<Seq<u8>> {
        self.0.param_bytes() + self.1.param_bytes() + self.2.param_bytes() + self.3.param_bytes() + self.4.param_bytes() + self.5.param_bytes() + self.6.param_bytes()
    }

    fn params(&self, out: &mut Vec<Vec<u8>>) {
        let ghost start = views_of(out@);
        self.0.params(out);
        self.1.params(out);
        self.2.params(out);
        self.3.params(out);
        self.4.params(out);
        self.5.params(out);
        self.6.params(out);
        assert(views_of(out@) =~= start + self.param_bytes());
    }
}

impl<A: KernelParameters, B: KernelParameters, C: KernelParameters, D: KernelParameters, E: KernelParameters, F: KernelParameters, G: KernelParameters, H: KernelParameters> KernelParameters for (A, B, C, D, E, F, G, H) {
    open spec fn param_bytes(&self) -> Seq<Seq<u8>> {
        self.0.param_bytes() + self.1.param_bytes() + self.2.param_bytes() + self.3.param_bytes() + self.4.param_bytes() + self.5.param_bytes() + self.6.param_bytes() + self.7.param_bytes()
    }

    fn params(&self, out: &mut Vec<Vec<u8>>) {
        let ghost start = views_of(out@);
        self.0.params(out);
        self.1.params(out);
        self.2.params(out);
        self.3.params(out);
        self.4.params(out);
        self.5.params(out);
        self.6.params(out);
        self.7.params(out);
        assert(views_of(out@) =~= start + self.param_bytes());
    }
}

impl<A: KernelParameters, B: KernelParameters, C: KernelParameters, D: KernelParameters, E: KernelParameters, F: KernelParameters, G: KernelParameters, H: KernelParameters, I: KernelParameters> KernelParameters for (A, B, C, D, E, F, G, H, I) {
    open spec fn param_bytes(&self) -> Seq<Seq<u8>> {
        self.0.param_bytes() + self.1.param_bytes() + self.2.param_bytes() + self.3.param_bytes() + self.4.param_bytes() + self.5.param_bytes() + self.6.param_bytes() + self.7.param_bytes() + self.8.param_bytes()
    }

    fn params(&self, out: &mut Vec<Vec<u8>>) {
        let ghost start = views_of(out@);
        self.0.params(out);
        self.1.params(out);
        self.2.params(out);
        self.3.params(out);
        self.4.params(out);
        self.5.params(out);
        self.6.params(out);
        self.7.params(out);
        self.8.params(out);
        assert(views_of(out@) =~= start + self.param_bytes());
    }
}

impl<A: KernelParameters, B: KernelParameters, C: KernelParameters, D: KernelParameters, E: KernelParameters, F: KernelParameters, G: KernelParameters, H: KernelParameters, I: KernelParameters, J: KernelParameters> KernelParameters for (A, B, C, D, E, F, G, H, I, J) {
    open spec fn param_bytes(&self) -> Seq<Seq<u8>> {
        self.0.param_bytes() + self.1.param_bytes() + self.2.param_bytes() + self.3.param_bytes() + self.4.param_bytes() + self.5.param_bytes() + self.6.param_bytes() + self.7.param_bytes() + self.8.param_bytes() + self.9.param_bytes()
    }

    fn params(&self, out: &mut Vec<Vec<u8>>) {
        let ghost start = views_of(out@);
        self.0.params(out);
        self.1.params(out);
        self.2.params(out);
        self.3.params(out);
        self.4.params(out);
        self.5.params(out);
        self.6.params(out);
        self.7.params(out);
        self.8.params(out);
        self.9.params(out);
        assert(views_of(out@) =~= start + self.param_bytes());
    }
}

impl<A: KernelParameters, B: KernelParameters, C: KernelParameters, D: KernelParameters, E: KernelParameters, F: KernelParameters, G: KernelParameters, H: KernelParameters, I: KernelParameters, J: KernelParameters, K: KernelParameters> KernelParameters for (A, B, C, D, E, F, G, H, I, J, K) {
    open spec fn param_bytes(&self) -> Seq<Seq<u8>> {
        self.0.param_bytes() + self.1.param_bytes() + self.2.param_bytes() + self.3.param_bytes() + self.4.param_bytes() + self.5.param_bytes() + self.6.param_bytes() + self.7.param_bytes() + self.8.param_bytes() + self.9.param_bytes() + self.10.param_bytes()
    }

    fn params(&self, out: &mut Vec<Vec<u8>>) {
        let ghost start = views_of(out@);
        self.0.params(out);
        self.1.params(out);
        self.2.params(out);
        self.3.params(out);
        self.4.params(out);
        self.5.params(out);
        self.6.params(out);
        self.7.params(out);
        self.8.params(out);
        self.9.params(out);
        self.10.params(out);
        assert(views_of(out@) =~= start + self.param_bytes());
    }
}

impl<A: KernelParameters, B: KernelParameters, C: KernelParameters, D: KernelParameters, E: KernelParameters, F: KernelParameters, G: KernelParameters, H: KernelParameters, I: KernelParameters, J: KernelParameters, K: KernelParameters, L: KernelParameters> KernelParameters for (A, B, C, D, E, F, G, H, I, J, K, L) {
    open spec fn param_bytes(&self) -> Seq<Seq<u8>> {
        self.0.param_bytes() + self.1.param_bytes() + self.2.param_bytes() + self.3.param_bytes() + self.4.param_bytes() + self.5.param_bytes() + self.6.param_bytes() + self.7.param_bytes() + self.8.param_bytes() + self.9.param_bytes() + self.10.param_bytes() + self.11.param_bytes()
    }

    fn params(&self, out: &mut Vec<Vec<u8>>) {
        let ghost start = views_of(out@);
        self.0.params(out);
        self.1.params(out);
        self.2.params(out);
        self.3.params(out);
        self.4.params(out);
        self.5.params(out);
        self.6.params(out);
        self.7.params(out);
        self.8.params(out);
        self.9.params(out);
        self.10.params(out);
        self.11.params(out);
        assert(views_of(out@) =~= start + self.param_bytes());
    }
}

impl<A: KernelParameters, B: KernelParameters, C: KernelParameters, D: KernelParameters, E: KernelParameters, F: KernelParameters, G: KernelParameters, H: KernelParameters, I: KernelParameters, J: KernelParameters, K: KernelParameters, L: KernelParameters, M: KernelParameters> KernelParameters for (A, B, C, D, E, F, G, H, I, J, K, L, M) {
    open spec fn param_bytes(&self) -> Seq<Seq<u8>> {
        self.0.param_bytes() + self.1.param_bytes() + self.2.param_bytes() + self.3.param_bytes() + self.4.param_bytes() + self.5.param_bytes() + self.6.param_bytes() + self.7.param_bytes() + self.8.param_bytes() + self.9.param_bytes() + self.10.param_bytes() + self.11.param_bytes() + self.12.param_bytes()
    }

    fn params(&self, out: &mut Vec<Vec<u8>>) {
        let ghost start = views_of(out@);
        self.0.params(out);
        self.1.params(out);
        self.2.params(out);
        self.3.params(out);
        self.4.params(out);
        self.5.params(out);
        self.6.params(out);
        self.7.params(out);
        self.8.params(out);
        self.9.params(out);
        self.10.params(out);
        self.11.params(out);
        self.12.params(out);
        assert(views_of(out@) =~= start + self.param_bytes());
    }
}

impl<A: KernelParameters, B: KernelParameters, C: KernelParameters, D: KernelParameters, E: KernelParameters, F: KernelParameters, G: KernelParameters, H: KernelParameters, I: KernelParameters, J: KernelParameters, K: KernelParameters, L: KernelParameters, M: KernelParameters, N: KernelParameters> KernelParameters for (A, B, C, D, E, F, G, H, I, J, K, L, M, N) {
    open spec fn param_bytes(&self) -> Seq<Seq<u8>> {
        self.0.param_bytes() + self.1.param_bytes() + self.2.param_bytes() + self.3.param_bytes() + self.4.param_bytes() + self.5.param_bytes() + self.6.param_bytes() + self.7.param_bytes() + self.8.param_bytes() + self.9.param_bytes() + self.10.param_bytes() + self.11.param_bytes() + self.12.param_bytes() + self.13.param_bytes()
    }

    fn params(&self, out: &mut Vec<Vec<u8>>) {
        let ghost start = views_of(out@);
        self.0.params(out);
        self.1.params(out);
        self.2.params(out);
        self.3.params(out);
        self.4.params(out);
        self.5.params(out);
        self.6.params(out);
        self.7.params(out);
        self.8.params(out);
        self.9.params(out);
        self.10.params(out);
        self.11.params(out);
        self.12.params(out);
        self.13.params(out);
        assert(views_of(out@) =~= start + self.param_bytes());
    }
}

impl<A: KernelParameters, B: KernelParameters, C: KernelParameters, D: KernelParameters, E: KernelParameters, F: KernelParameters, G: KernelParameters, H: KernelParameters, I: KernelParameters, J: KernelParameters, K: KernelParameters, L: KernelParameters, M: KernelParameters, N: KernelParameters, O: KernelParameters> KernelParameters for (A, B, C, D, E, F, G, H, I, J, K, L, M, N, O) {
    open spec fn param_bytes(&self) -> Seq<Seq<u8>> {
        self.0.param_bytes() + self.1.param_bytes() + self.2.param_bytes() + self.3.param_bytes() + self.4.param_bytes() + self.5.param_bytes() + self.6.param_bytes() + self.7.param_bytes() + self.8.param_bytes() + self.9.param_bytes() + self.10.param_bytes() + self.11.param_bytes() + self.12.param_bytes() + self.13.param_bytes() + self.14.param_bytes()
    }

    fn params(&self, out: &mut Vec<Vec<u8>>) {
        let ghost start = views_of(out@);
        self.0.params(out);
        self.1.params(out);
        self.2.params(out);
        self.3.params(out);
        self.4.params(out);
        self.5.params(out);
        self.6.params(out);
        self.7.params(out);
        self.8.params(out);
        self.9.params(out);
        self.10.params(out);
        self.11.params(out);
        self.12.params(out);
        self.13.params(out);
        self.14.params(out);
        assert(views_of(out@) =~= start + self.param_bytes());
    }
}

impl<A: KernelParameters, B: KernelParameters, C: KernelParameters, D: KernelParameters, E: KernelParameters, F: KernelParameters, G: KernelParameters, H: KernelParameters, I: KernelParameters, J: KernelParameters, K: KernelParameters, L: KernelParameters, M: KernelParameters, N: KernelParameters, O: KernelParameters, P: KernelParameters> KernelParameters for (A, B, C, D, E, F, G, H, I, J, K, L, M, N, O, P) {
    open spec fn param_bytes(&self) -> Seq<Seq<u8>> {
        self.0.param_bytes() + self.1.param_bytes() + self.2.param_bytes() + self.3.param_bytes() + self.4.param_bytes() + self.5.param_bytes() + self.6.param_bytes() + self.7.param_bytes() + self.8.param_bytes() + self.9.param_bytes() + self.10.param_bytes() + self.11.param_bytes() + self.12.param_bytes() + self.13.param_bytes() + self.14.param_bytes() + self.15.param_bytes()
    }

    fn params(&self, out: &mut Vec<Vec<u8>>) {
        let ghost start = views_of(out@);
        self.0.params(out);
        self.1.params(out);
        self.2.params(out);
        self.3.params(out);
        self.4.params(out);
        self.5.params(out);
        self.6.params(out);
        self.7.params(out);
        self.8.params(out);
        self.9.params(out);
        self.10.params(out);
        self.11.params(out);
        self.12.params(out);
        self.13.params(out);
        self.14.params(out);
        self.15.params(out);
        assert(views_of(out@) =~= start + self.param_bytes());
    }
}

} // verus!
