//! The memory / IO-port capability the execution environment and the trap
//! handlers are written against, so that the instruction decoder can run
//! against any backing store (the real machine or a test double).

use vstd::prelude::*;

verus! {

/// Byte-addressed memory over a 32-bit address argument (the machine decodes
/// 20 of those bits) plus a 16-bit port space.
///
/// The abstract behaviour is fixed by two spec functions: `peek_spec` gives
/// the byte every read returns, and `writable` tells which addresses a write
/// may change.  A write to a non-writable address is discarded; reads never
/// change anything; port operations never touch memory.
pub trait Machine: Sized {
    /// Whatever observable state the machine has beside its memory (buffered
    /// port bytes, queues, counters); memory operations leave it alone.
    type IoView;

    /// Well-formedness of the backing store.
    spec fn inv(&self) -> bool;

    /// The byte a read at `address` returns.
    spec fn peek_spec(&self, address: u32) -> u8;

    /// Whether a write at `address` takes effect.
    spec fn writable(&self, address: u32) -> bool;

    /// The non-memory observable state.
    spec fn io_view(&self) -> Self::IoView;

    fn peek(&self, address: u32) -> (value: u8)
        requires
            self.inv(),
        ensures
            value == self.peek_spec(address),
    ;

    fn poke(&mut self, address: u32, value: u8)
        requires
            old(self).inv(),
        ensures
            final(self).inv(),
            forall|a: u32|
                final(self).peek_spec(a) == (if a == address && old(self).writable(address) {
                    value
                } else {
                    old(self).peek_spec(a)
                }),
            forall|a: u32| final(self).writable(a) == old(self).writable(a),
            final(self).io_view() == old(self).io_view(),
    ;

    fn port_in(&mut self, address: u16) -> (value: u8)
        requires
            old(self).inv(),
        ensures
            final(self).inv(),
            forall|a: u32| final(self).peek_spec(a) == old(self).peek_spec(a),
            forall|a: u32| final(self).writable(a) == old(self).writable(a),
    ;

    fn port_out(&mut self, address: u16, value: u8)
        requires
            old(self).inv(),
        ensures
            final(self).inv(),
            forall|a: u32| final(self).peek_spec(a) == old(self).peek_spec(a),
            forall|a: u32| final(self).writable(a) == old(self).writable(a),
    ;
}

/// Memory and writability are exactly as before.
pub open spec fn mem_unchanged<M: Machine>(pre: M, post: M) -> bool {
    &&& forall|a: u32| post.peek_spec(a) == pre.peek_spec(a)
    &&& forall|a: u32| post.writable(a) == pre.writable(a)
}

/// Memory after one write of `value` at `address`: the byte lands if the
/// address is writable, everything else is as before.
pub open spec fn poked<M: Machine>(pre: M, post: M, address: u32, value: u8) -> bool {
    &&& forall|a: u32|
        post.peek_spec(a) == (if a == address && pre.writable(address) {
            value
        } else {
            pre.peek_spec(a)
        })
    &&& forall|a: u32| post.writable(a) == pre.writable(a)
}

/// Memory after two writes, the write at `a1` coming second.
pub open spec fn poked2<M: Machine>(pre: M, post: M, a0: u32, v0: u8, a1: u32, v1: u8) -> bool {
    &&& forall|a: u32|
        post.peek_spec(a) == (if a == a1 && pre.writable(a1) {
            v1
        } else if a == a0 && pre.writable(a0) {
            v0
        } else {
            pre.peek_spec(a)
        })
    &&& forall|a: u32| post.writable(a) == pre.writable(a)
}

/// Memory after three writes, in the order `a0`, `a1`, `a2`.
pub open spec fn poked3<M: Machine>(
    pre: M,
    post: M,
    a0: u32,
    v0: u8,
    a1: u32,
    v1: u8,
    a2: u32,
    v2: u8,
) -> bool {
    &&& forall|a: u32|
        post.peek_spec(a) == (if a == a2 && pre.writable(a2) {
            v2
        } else if a == a1 && pre.writable(a1) {
            v1
        } else if a == a0 && pre.writable(a0) {
            v0
        } else {
            pre.peek_spec(a)
        })
    &&& forall|a: u32| post.writable(a) == pre.writable(a)
}

} // verus!
