//! The concrete machine: a fixed byte array partitioned into a read-only
//! firmware region and a read-write working region, a buffered receive byte
//! and a transmit queue standing in for the UART channel pair, and the
//! firmware loader with its checksum gate.
//!
//! The embedding application owns the real channels, the timer and the
//! clock: it drains `tx_queue`, feeds received bytes in through `feed_rx`,
//! and performs the short real-time delay the guest timer port asks for.

use vstd::prelude::*;
use crate::machine::{poked, Machine};
use crate::mos::MOS_103_CHECKSUM;
use crate::z80_mem_tools::{checksum, checksum_spec, cstring_end};

verus! {

/// Size of the read-only firmware region.
pub const ROM_SIZE: u32 = 0x40000;

/// Size of the read-write working region, directly above the firmware.
pub const RAM_SIZE: u32 = 0x80000;

/// Size of the whole decoded address space.
pub const MEM_SIZE: u32 = ROM_SIZE + RAM_SIZE;

/// What a read from the port space returns: the transmit-status port always
/// reports ready, the receive-data port drains the buffered byte, the
/// line-status port reports ready-to-transmit plus whether a byte is
/// buffered, and every other port (the two timer ports included) reads as
/// zero.
pub open spec fn port_in_spec(rx_buf: Option<u8>, address: u16) -> u8 {
    if address == 0xa2 {
        0
    } else if address == 0xc0 {
        match rx_buf {
            Some(data) => data,
            None => 0,
        }
    } else if address == 0xc5 {
        match rx_buf {
            Some(data) => 0x41,
            None => 0x40,
        }
    } else {
        0
    }
}

pub struct AgonMachine {
    /// The emulated address space: firmware below `ROM_SIZE`, working
    /// memory above it.
    pub mem: Vec<u8>,
    /// One buffered received byte, fed in by the embedding application and
    /// drained by the receive-data port.
    pub rx_buf: Option<u8>,
    /// Bytes the guest wrote to the transmit-data port, in order; the
    /// embedding application drains them to the peripheral.
    pub tx_queue: Vec<u8>,
    /// How many reads of the low timer port are still owed a short
    /// real-time delay; the embedding application drains this counter and
    /// sleeps (this crate never blocks).
    pub pending_sleeps: u64,
}

impl Machine for AgonMachine {
    type IoView = (Option<u8>, Seq<u8>, u64);

    open spec fn inv(&self) -> bool {
        self.mem@.len() == MEM_SIZE
    }

    open spec fn io_view(&self) -> (Option<u8>, Seq<u8>, u64) {
        (self.rx_buf, self.tx_queue@, self.pending_sleeps)
    }

    open spec fn peek_spec(&self, address: u32) -> u8 {
        if address < MEM_SIZE {
            self.mem@[address as int]
        } else {
            0
        }
    }

    open spec fn writable(&self, address: u32) -> bool {
        ROM_SIZE <= address < MEM_SIZE
    }

    /// Reads above the decoded space are observable but harmless: they
    /// return zero.
    fn peek(&self, address: u32) -> (value: u8) {
        if address >= MEM_SIZE {
            0
        } else {
            self.mem[address as usize]
        }
    }

    /// Writes to the firmware region or above the decoded space are
    /// discarded: the firmware cannot be reflashed by guest code and the
    /// bus ignores unmapped writes.
    fn poke(&mut self, address: u32, value: u8) {
        if address >= MEM_SIZE || address < ROM_SIZE {
        } else {
            self.mem[address as usize] = value;
        }
    }

    fn port_in(&mut self, address: u16) -> (value: u8) {
        self.handle_port_in(address)
    }

    fn port_out(&mut self, address: u16, value: u8) {
        self.handle_port_out(address, value);
    }
}

impl AgonMachine {
    /// A machine with zeroed memory, no buffered receive byte and an empty
    /// transmit queue.
    pub fn new() -> (m: AgonMachine)
        ensures
            m.inv(),
            forall|a: u32| m.peek_spec(a) == 0,
            m.rx_buf is None,
            m.tx_queue@ == Seq::<u8>::empty(),
            m.pending_sleeps == 0,
    {
        let mut mem: Vec<u8> = Vec::new();
        let size: usize = MEM_SIZE as usize;
        while mem.len() < size
            invariant
                mem@.len() <= size,
                forall|i: int| 0 <= i < mem@.len() ==> mem@[i] == 0,
            decreases size - mem@.len(),
    {
            mem.push(0);
        }
        AgonMachine { mem, rx_buf: None, tx_queue: Vec::new(), pending_sleeps: 0 }
    }

    /// The UART port model; see [`port_in_spec`].  A read of the low timer
    /// port asks for a short real-time delay: it is counted in
    /// `pending_sleeps`, and the embedding application drains the counter
    /// and sleeps (this crate never blocks).
    pub fn handle_port_in(&mut self, address: u16) -> (value: u8)
        requires
            old(self).inv(),
        ensures
            final(self).inv(),
            final(self).mem == old(self).mem,
            final(self).tx_queue == old(self).tx_queue,
            final(self).rx_buf == (if address == 0xc0 {
                None::<u8>
            } else {
                old(self).rx_buf
            }),
            final(self).pending_sleeps == (if address == 0x81 && old(self).pending_sleeps
                < 0xffff_ffff_ffff_ffff {
                (old(self).pending_sleeps + 1) as u64
            } else {
                old(self).pending_sleeps
            }),
            value == port_in_spec(old(self).rx_buf, address),
    {
        if address == 0xa2 {
            // transmit status: always clear to send
            0
        } else if address == 0xc0 {
            // receive data: drain the buffered byte
            let data = match self.rx_buf {
                Some(data) => data,
                None => 0,
            };
            self.rx_buf = None;
            data
        } else if address == 0x81 {
            // low timer port: owed one cooperative throttling delay
            if self.pending_sleeps < 0xffff_ffff_ffff_ffff {
                self.pending_sleeps = self.pending_sleeps + 1;
            }
            0
        } else if address == 0xc5 {
            // line status: transmit empty, and data ready when buffered
            match self.rx_buf {
                Some(_) => 0x41,
                None => 0x40,
            }
        } else {
            // the high timer port and everything unrecognized read as zero
            0
        }
    }

    /// Hands out how many timer-port delays are owed and resets the count;
    /// the embedding application sleeps once per owed delay.
    pub fn take_sleep_requests(&mut self) -> (owed: u64)
        ensures
            owed == old(self).pending_sleeps,
            *final(self) == (AgonMachine { pending_sleeps: 0, ..*old(self) }),
    {
        let owed = self.pending_sleeps;
        self.pending_sleeps = 0;
        owed
    }

    /// The transmit port: a byte written to it is queued for the
    /// peripheral; writes to any other port are no-ops.
    pub fn handle_port_out(&mut self, address: u16, value: u8)
        requires
            old(self).inv(),
        ensures
            final(self).inv(),
            final(self).mem == old(self).mem,
            final(self).rx_buf == old(self).rx_buf,
            final(self).pending_sleeps == old(self).pending_sleeps,
            final(self).tx_queue@ == (if address == 0xc0 {
                old(self).tx_queue@.push(value)
            } else {
                old(self).tx_queue@
            }),
    {
        if address == 0xc0 {
            self.tx_queue.push(value);
        }
    }

    /// Stores a received byte if none is buffered yet; a byte already
    /// waiting is kept.
    pub fn feed_rx(&mut self, byte: u8)
        requires
            old(self).inv(),
        ensures
            final(self).inv(),
            final(self).mem == old(self).mem,
            final(self).tx_queue == old(self).tx_queue,
            final(self).pending_sleeps == old(self).pending_sleeps,
            final(self).rx_buf == (match old(self).rx_buf {
                Some(data) => Some(data),
                None => Some(byte),
            }),
    {
        if self.rx_buf.is_none() {
            self.rx_buf = Some(byte);
        }
    }

    /// Whether a received byte is waiting (drives the receive interrupt).
    pub fn rx_pending(&self) -> (pending: bool)
        ensures
            pending == (self.rx_buf is Some),
    {
        self.rx_buf.is_some()
    }

    /// Copies a firmware image to the bottom of the address space (below
    /// any bus protection: the loader may write the firmware region), then
    /// checksums what was loaded.  Returns whether the image is the one
    /// pinned build this crate's virtualization layer supports; with any
    /// other image the machine still runs, but the trap layer must stay
    /// disabled.
    pub fn load_firmware(&mut self, code: &Vec<u8>) -> (supported: bool)
        requires
            old(self).inv(),
            code@.len() <= MEM_SIZE,
        ensures
            final(self).inv(),
            final(self).rx_buf == old(self).rx_buf,
            final(self).tx_queue == old(self).tx_queue,
            final(self).pending_sleeps == old(self).pending_sleeps,
            forall|j: int| 0 <= j < code@.len() ==> final(self).mem@[j] == code@[j],
            forall|j: int| code@.len() <= j < MEM_SIZE ==> final(self).mem@[j] == old(self).mem@[j],
            supported == (checksum_spec(*final(self), 0, code@.len() as int)
                == MOS_103_CHECKSUM),
    {
        let mut i: usize = 0;
        while i < code.len()
            invariant
                self.inv(),
                self.rx_buf == old(self).rx_buf,
                self.tx_queue == old(self).tx_queue,
                self.pending_sleeps == old(self).pending_sleeps,
                i <= code@.len() <= MEM_SIZE,
                forall|j: int| 0 <= j < i ==> self.mem@[j] == code@[j],
                forall|j: int| i <= j < MEM_SIZE ==> self.mem@[j] == old(self).mem@[j],
            decreases code@.len() - i,
        {
            self.mem[i] = code[i];
            i = i + 1;
        }
        let sum = checksum(self, 0, code.len() as u32);
        sum == MOS_103_CHECKSUM
    }
}

/// A write followed by a read at the same address returns the written value
/// everywhere in the writable region; a read outside the decoded space
/// returns zero; and a write outside the writable region (the firmware
/// region or beyond the decoded space) changes nothing a read can see.
pub proof fn lemma_write_read_roundtrip(
    pre: AgonMachine,
    post: AgonMachine,
    address: u32,
    value: u8,
)
    requires
        poked(pre, post, address, value),
    ensures
        ROM_SIZE <= address < MEM_SIZE ==> post.peek_spec(address) == value,
        address >= MEM_SIZE ==> post.peek_spec(address) == 0,
        !(ROM_SIZE <= address < MEM_SIZE) ==> forall|a: u32| post.peek_spec(a) == pre.peek_spec(a),
{
}

/// Every string read terminates on this machine: any read above the decoded
/// address space returns zero, so a zero byte stands at or after every
/// address.
pub proof fn lemma_cstring_terminates(m: AgonMachine, address: u32)
    ensures
        m.peek_spec(cstring_end(m, address)) == 0,
    decreases 0xffff_ffffu32 - address,
{
    if m.peek_spec(address) == 0 {
    } else if address == 0xffff_ffffu32 {
        assert(m.peek_spec(address) == 0);
    } else {
        lemma_cstring_terminates(m, (address + 1) as u32);
    }
}

} // verus!
