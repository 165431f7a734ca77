//! Address-space-level helpers used by the trap handlers and the firmware
//! loader: fill, block copy, NUL-terminated string extraction and checksum.
//! Every byte goes through the [`Machine`] contract, so out-of-bounds
//! behaviour is the same as for an ordinary access.

use vstd::prelude::*;
use crate::machine::{poked3, Machine};

verus! {

/// Memory after `count` bytes of `fill` were written at `address` upward.
pub open spec fn filled<M: Machine>(pre: M, post: M, address: u32, fill: u8, count: u32) -> bool {
    &&& forall|a: u32|
        post.peek_spec(a) == (if address <= a < address + count && pre.writable(a) {
            fill
        } else {
            pre.peek_spec(a)
        })
    &&& forall|a: u32| post.writable(a) == pre.writable(a)
}

/// Memory after the byte sequence `data` was written at `start` upward.
pub open spec fn wrote_bytes<M: Machine>(pre: M, post: M, start: u32, data: Seq<u8>) -> bool {
    &&& forall|a: u32|
        post.peek_spec(a) == (if start <= a < start + data.len() && pre.writable(a) {
            data[a - start]
        } else {
            pre.peek_spec(a)
        })
    &&& forall|a: u32| post.writable(a) == pre.writable(a)
}

/// Writes `fill` to `count` consecutive addresses starting at `address`.
pub fn memset<M: Machine>(machine: &mut M, address: u32, fill: u8, count: u32)
    requires
        old(machine).inv(),
        address + count <= 0xffff_ffff,
    ensures
        final(machine).inv(),
        filled(*old(machine), *final(machine), address, fill, count),
        final(machine).io_view() == old(machine).io_view(),
{
    let mut loc: u32 = address;
    while loc < address + count
        invariant
            machine.inv(),
            machine.io_view() == old(machine).io_view(),
            address <= loc <= address + count,
            address + count <= 0xffff_ffff,
            forall|a: u32|
                machine.peek_spec(a) == (if address <= a < loc && old(machine).writable(a) {
                    fill
                } else {
                    old(machine).peek_spec(a)
                }),
            forall|a: u32| machine.writable(a) == old(machine).writable(a),
        decreases address + count - loc,
    {
        machine.poke(loc, fill);
        loc = loc + 1;
    }
}

/// Writes the byte sequence `data` starting at `start`.
pub fn memcpy_to_z80<M: Machine>(machine: &mut M, start: u32, data: &[u8])
    requires
        old(machine).inv(),
        start + data@.len() <= 0xffff_ffff,
    ensures
        final(machine).inv(),
        wrote_bytes(*old(machine), *final(machine), start, data@),
        final(machine).io_view() == old(machine).io_view(),
{
    let mut loc: u32 = start;
    let mut i: usize = 0;
    while i < data.len()
        invariant
            machine.inv(),
            machine.io_view() == old(machine).io_view(),
            i <= data@.len(),
            loc == start + i,
            start + data@.len() <= 0xffff_ffff,
            forall|a: u32|
                machine.peek_spec(a) == (if start <= a < start + i && old(machine).writable(a) {
                    data@[a - start]
                } else {
                    old(machine).peek_spec(a)
                }),
            forall|a: u32| machine.writable(a) == old(machine).writable(a),
        decreases data@.len() - i,
    {
        machine.poke(loc, data[i]);
        loc = loc + 1;
        i = i + 1;
    }
}

/// The address of the first zero byte at or after `a` (or the top of the
/// address space when no byte is zero).
pub open spec fn cstring_end<M: Machine>(m: M, a: u32) -> u32
    decreases 0xffff_ffffu32 - a,
{
    if m.peek_spec(a) == 0 {
        a
    } else if a == 0xffff_ffffu32 {
        a
    } else {
        cstring_end(m, (a + 1) as u32)
    }
}

/// The bytes from `a` up to, and excluding, the first zero byte.
pub open spec fn cstring_at<M: Machine>(m: M, a: u32) -> Seq<u8> {
    Seq::new((cstring_end(m, a) - a) as nat, |i: int| m.peek_spec((a + i) as u32))
}

/// The first zero byte lies at or after `a`, and everything before it is
/// nonzero.
pub proof fn lemma_cstring_end<M: Machine>(m: M, a: u32)
    ensures
        a <= cstring_end(m, a),
        forall|x: u32| a <= x < cstring_end(m, a) ==> m.peek_spec(x) != 0,
    decreases 0xffff_ffffu32 - a,
{
    if m.peek_spec(a) == 0 {
    } else if a == 0xffff_ffffu32 {
    } else {
        lemma_cstring_end(m, (a + 1) as u32);
    }
}

/// Reads bytes starting at `address` until and excluding a zero byte.  The
/// bytes are not assumed to form valid text.  A zero byte must exist at or
/// after `address`; on the real machine every read above the address space's
/// bound returns zero, so one always does.
pub fn get_cstring<M: Machine>(machine: &M, address: u32) -> (s: Vec<u8>)
    requires
        machine.inv(),
        machine.peek_spec(cstring_end(*machine, address)) == 0,
    ensures
        s@ == cstring_at(*machine, address),
{
    proof {
        lemma_cstring_end(*machine, address);
    }
    let ghost end = cstring_end(*machine, address);
    let mut s: Vec<u8> = Vec::new();
    let mut ptr: u32 = address;

    loop
        invariant
            machine.inv(),
            machine.peek_spec(cstring_end(*machine, address)) == 0,
            address <= ptr <= end,
            end == cstring_end(*machine, address),
            forall|x: u32| address <= x < end ==> machine.peek_spec(x) != 0,
            s@.len() == ptr - address,
            forall|i: int| 0 <= i < s@.len() ==> s@[i] == machine.peek_spec((address + i) as u32),
        ensures
            s@ == cstring_at(*machine, address),
        decreases end - ptr,
    {
        let b = machine.peek(ptr);
        if b == 0 {
            proof {
                assert(ptr == end);
                assert(s@ =~= cstring_at(*machine, address));
            }
            break ;
        }
        s.push(b);
        ptr = ptr + 1;
    }
    s
}

/// Reads `len` consecutive bytes starting at `start`, exactly as single
/// reads would return them (a block that reaches outside the decoded space
/// gets that part as zeros).  The embedding application uses this to hand
/// guest bytes to a host file.
pub fn memcpy_from_z80<M: Machine>(machine: &M, start: u32, len: u32) -> (data: Vec<u8>)
    requires
        machine.inv(),
        start + len <= 0x1_0000_0000,
    ensures
        data@ == range_bytes(*machine, start as int, len as int),
{
    let mut data: Vec<u8> = Vec::new();
    let mut i: u32 = 0;
    while i < len
        invariant
            machine.inv(),
            i <= len,
            start + len <= 0x1_0000_0000,
            data@.len() == i,
            forall|j: int| 0 <= j < i ==> data@[j] == machine.peek_spec((start + j) as u32),
        decreases len - i,
    {
        data.push(machine.peek(start + i));
        i = i + 1;
    }
    proof {
        assert(data@ =~= range_bytes(*machine, start as int, len as int));
    }
    data
}

/// The 24-bit word at `a` read with plain (non-wrapping) increments, as the
/// trap handlers and the checksum use it.
pub open spec fn peek24_linear_spec<M: Machine>(m: M, a: int) -> u32 {
    (m.peek_spec(a as u32) + m.peek_spec((a + 1) as u32) * 0x100 + m.peek_spec((a + 2) as u32)
        * 0x10000) as u32
}

/// Reads a 24-bit word at `address` with plain address increments.
pub fn peek24_linear<M: Machine>(machine: &M, address: u32) -> (v: u32)
    requires
        machine.inv(),
        address <= 0xffff_fffd,
    ensures
        v == peek24_linear_spec(*machine, address as int),
        v < 0x100_0000,
{
    let l = machine.peek(address);
    let h = machine.peek(address + 1);
    let u = machine.peek(address + 2);
    l as u32 + h as u32 * 0x100 + u as u32 * 0x10000
}

/// Writes the low 24 bits of `value` at `address` with plain address
/// increments.
pub fn poke24_linear<M: Machine>(machine: &mut M, address: u32, value: u32)
    requires
        old(machine).inv(),
        address <= 0xffff_fffd,
    ensures
        final(machine).inv(),
        poked3(
            *old(machine),
            *final(machine),
            address,
            (value % 0x100) as u8,
            (address + 1) as u32,
            (value / 0x100 % 0x100) as u8,
            (address + 2) as u32,
            (value / 0x10000 % 0x100) as u8,
        ),
        final(machine).io_view() == old(machine).io_view(),
{
    machine.poke(address, (value % 0x100) as u8);
    machine.poke(address + 1, (value / 0x100 % 0x100) as u8);
    machine.poke(address + 2, (value / 0x10000 % 0x100) as u8);
}

/// XOR of the 24-bit words found by striding 3 bytes at a time across `len`
/// bytes from `start`.
pub open spec fn checksum_spec<M: Machine>(m: M, start: int, len: int) -> u32
    decreases len,
{
    if len <= 0 {
        0
    } else {
        peek24_linear_spec(m, start) ^ checksum_spec(
            m,
            start + 3,
            if len < 3 {
                0
            } else {
                len - 3
            },
        )
    }
}

/// Computes the checksum over `len` bytes starting at `start`.
pub fn checksum<M: Machine>(machine: &M, start: u32, len: u32) -> (c: u32)
    requires
        machine.inv(),
        start + len <= 0xffff_fffe,
    ensures
        c == checksum_spec(*machine, start as int, len as int),
{
    let end: u32 = start + len;
    let mut acc: u32 = 0;
    let mut i: u32 = start;
    proof {
        lemma_xor_zero_left(checksum_spec(*machine, start as int, len as int));
    }
    while i < end
        invariant
            machine.inv(),
            start <= i <= end,
            end == start + len,
            end <= 0xffff_fffe,
            acc ^ checksum_spec(*machine, i as int, end - i) == checksum_spec(
                *machine,
                start as int,
                len as int,
            ),
        decreases end - i,
    {
        let w = peek24_linear(machine, i);
        proof {
            let rest = if end - i < 3 {
                0int
            } else {
                end - i - 3
            };
            lemma_xor_shuffle(acc, w, checksum_spec(*machine, i + 3, rest));
        }
        acc = acc ^ w;
        i = if end - i < 3 {
            end
        } else {
            i + 3
        };
    }
    proof {
        lemma_xor_zero_right(acc);
    }
    acc
}

/// A checksum over a zero-length range is zero.
pub proof fn lemma_checksum_empty<M: Machine>(m: M, start: int)
    ensures
        checksum_spec(m, start, 0) == 0,
{
}

/// The bytes a machine holds over `n` addresses from `s` upward, as reads
/// return them.
pub open spec fn range_bytes<M: Machine>(m: M, s: int, n: int) -> Seq<u8> {
    Seq::new(
        if n <= 0 {
            0nat
        } else {
            n as nat
        },
        |j: int| m.peek_spec((s + j) as u32),
    )
}

/// The checksum depends only on the bytes the strided reads return, not on
/// where they lie: two ranges of the same length whose bytes agree pointwise
/// (including the up-to-two bytes a final 24-bit read may reach past the
/// range) have the same checksum.  In particular, moving a range to another
/// bank leaves the checksum unchanged.
pub proof fn lemma_checksum_depends_on_bytes<M: Machine, N: Machine>(
    m1: M,
    m2: N,
    s1: int,
    s2: int,
    len: int,
)
    requires
        range_bytes(m1, s1, len + 2) == range_bytes(m2, s2, len + 2),
    ensures
        checksum_spec(m1, s1, len) == checksum_spec(m2, s2, len),
    decreases len,
{
    if len <= 0 {
    } else {
        let b1 = range_bytes(m1, s1, len + 2);
        let b2 = range_bytes(m2, s2, len + 2);
        assert(m1.peek_spec((s1 + 0) as u32) == m2.peek_spec((s2 + 0) as u32)) by {
            assert(b1[0] == b2[0]);
        }
        assert(m1.peek_spec((s1 + 1) as u32) == m2.peek_spec((s2 + 1) as u32)) by {
            assert(b1[1] == b2[1]);
        }
        assert(m1.peek_spec((s1 + 2) as u32) == m2.peek_spec((s2 + 2) as u32)) by {
            assert(b1[2] == b2[2]);
        }
        if len < 3 {
            assert(checksum_spec(m1, s1 + 3, 0) == 0);
            assert(checksum_spec(m2, s2 + 3, 0) == 0);
        } else {
            let rest = len - 3;
            assert(range_bytes(m1, s1 + 3, rest + 2) =~= range_bytes(m2, s2 + 3, rest + 2)) by {
                assert forall|j: int| 0 <= j < rest + 2 implies #[trigger] range_bytes(
                    m1,
                    s1 + 3,
                    rest + 2,
                )[j] == range_bytes(m2, s2 + 3, rest + 2)[j] by {
                    assert(b1[j + 3] == b2[j + 3]);
                    assert(range_bytes(m1, s1 + 3, rest + 2)[j] == m1.peek_spec(
                        ((s1 + 3) + j) as u32,
                    ));
                    assert(b1[j + 3] == m1.peek_spec((s1 + (j + 3)) as u32));
                    assert(range_bytes(m2, s2 + 3, rest + 2)[j] == m2.peek_spec(
                        ((s2 + 3) + j) as u32,
                    ));
                    assert(b2[j + 3] == m2.peek_spec((s2 + (j + 3)) as u32));
                }
            }
            lemma_checksum_depends_on_bytes(m1, m2, s1 + 3, s2 + 3, rest);
        }
    }
}

/// `0 ^ x == x`.
pub proof fn lemma_xor_zero_left(x: u32)
    ensures
        0u32 ^ x == x,
{
    assert(0u32 ^ x == x) by (bit_vector);
}

/// `x ^ 0 == x`.
pub proof fn lemma_xor_zero_right(x: u32)
    ensures
        x ^ 0u32 == x,
{
    assert(x ^ 0u32 == x) by (bit_vector);
}

/// XOR is associative and commutative enough to fold an accumulator:
/// `(a ^ b) ^ c == a ^ (b ^ c)`.
pub proof fn lemma_xor_shuffle(a: u32, b: u32, c: u32)
    ensures
        (a ^ b) ^ c == a ^ (b ^ c),
{
    assert((a ^ b) ^ c == a ^ (b ^ c)) by (bit_vector);
}

} // verus!
