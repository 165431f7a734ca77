//! The host-filesystem virtualization layer: the handle tables keyed by
//! guest structure addresses, the emulated current directory, and one
//! handler per trapped firmware file call.
//!
//! Host I/O itself (opening, reading, writing, listing) is performed by the
//! embedding application; each handler here reads the guest-side arguments
//! from the stack, takes the host's outcome as a plain value, commits every
//! guest-visible effect the substituted firmware subroutine would have
//! committed (structure fields, result register, forced subroutine return),
//! and is verified for every possible outcome value.
//!
//! Each handler returns `false` when the forced return popped a zero
//! address, which signals a corrupted stack; the embedding application is
//! expected to stop then, as the machine cannot continue meaningfully.

use vstd::prelude::*;
use crate::agon_machine::{lemma_cstring_terminates, AgonMachine};
use crate::environment::{byte0, byte1, byte2, pop_value_spec, popped_reg, Environment};
use crate::machine::Machine;
use crate::mos::{
    AM_DIR, FILINFO_MEMBER_FATTRIB_U8, FILINFO_MEMBER_FNAME_256BYTES, FILINFO_MEMBER_FSIZE_U32,
    FIL_MEMBER_FPTR, FIL_MEMBER_OBJSIZE, MOS_ERR_GENERAL, MOS_ERR_NOT_FOUND, MOS_ERR_OK,
    SIZEOF_MOS_FILINFO_STRUCT, SIZEOF_MOS_FIL_STRUCT,
};
use crate::registers::Reg16;
use crate::state::State;
use crate::z80_mem_tools::{
    cstring_at, filled, get_cstring, memcpy_to_z80, memset, peek24_linear, peek24_linear_spec,
    poke24_linear, wrote_bytes,
};

verus! {

/// A host I/O failure, reduced to what the guest can be told.
#[derive(Clone, Copy, PartialEq, Eq, Structural, Debug)]
pub enum HostIoError {
    /// The path does not exist (guest error code 4).
    NotFound,
    /// Any other failure (guest error code 1).
    Other,
}

/// What a path the guest asked to change into turned out to be on the host.
#[derive(Clone, Copy, PartialEq, Eq, Structural, Debug)]
pub enum PathStatus {
    Dir,
    NotDir,
    NotFound,
    Error,
}

/// One advance of a host directory iterator.
pub enum DirEvent {
    /// A directory entry: its name's bytes, its size, and whether it is
    /// itself a directory.
    Entry { name: Vec<u8>, size: u64, is_dir: bool },
    /// The entry was yielded but its metadata could not be read; a sentinel
    /// name is reported instead.
    MetaError,
    /// The iterator itself failed.
    IterError,
    /// The sequence is exhausted; the zeroed name field signals the end.
    End,
}

/// What a host file read handed back: the bytes and the file position after
/// the read.
pub struct HostRead {
    pub data: Vec<u8>,
    pub fpos: u64,
}

/// The guest error code a host failure maps to.
pub open spec fn host_error_code(e: HostIoError) -> u32 {
    match e {
        HostIoError::NotFound => MOS_ERR_NOT_FOUND,
        HostIoError::Other => MOS_ERR_GENERAL,
    }
}

/// The guest error code of a change-directory verdict.
pub open spec fn chdir_code(v: PathStatus) -> u32 {
    match v {
        PathStatus::Dir => MOS_ERR_OK,
        PathStatus::NotDir => MOS_ERR_GENERAL,
        PathStatus::NotFound => MOS_ERR_NOT_FOUND,
        PathStatus::Error => MOS_ERR_GENERAL,
    }
}

/// The `k`-th byte of the stack-relative argument area: the 24-bit word `k`
/// bytes above the stack pointer, as the substituted calling convention
/// passes arguments.
pub open spec fn stack_arg<M: Machine>(s: State, m: M, k: int) -> u32 {
    peek24_linear_spec(m, s.sp_spec() + k)
}

/// The common end of every handler: the result code stands in the 24-bit
/// accumulator pair, and a forced subroutine return popped the caller's
/// address from the (possibly just written) memory `m`; `ok` is false when
/// that address was zero, in which case the program counter is left alone.
pub open spec fn trap_done<M: Machine>(s0: State, m: M, code: u32, ok: bool, s1: State) -> bool {
    let s_hl = State { reg: s0.reg.set24_spec(Reg16::HL, code), ..s0 };
    &&& ok == (pop_value_spec(s_hl, m) != 0)
    &&& s1 == (State {
        pc: if ok {
            pop_value_spec(s_hl, m)
        } else {
            s_hl.pc
        },
        reg: popped_reg(s_hl),
        ..s_hl
    })
}

impl Environment<AgonMachine> {
    /// Reads the 24-bit trap argument `offset` bytes above the stack
    /// pointer.
    pub fn trap_arg(&self, offset: u32) -> (v: u32)
        requires
            self.sys.inv(),
            offset <= 16,
        ensures
            v == stack_arg(self.state, self.sys, offset as int),
            v < 0x100_0000,
    {
        let sp = self.state.sp();
        peek24_linear(&self.sys, sp + offset)
    }

    /// Reads the NUL-terminated byte string whose address stands `offset`
    /// bytes above the stack pointer.  The bytes are not assumed to be
    /// valid text.
    pub fn trap_cstring_arg(&self, offset: u32) -> (s: Vec<u8>)
        requires
            self.sys.inv(),
            offset <= 16,
        ensures
            s@ == cstring_at(self.sys, stack_arg(self.state, self.sys, offset as int)),
    {
        let ptr = self.trap_arg(offset);
        proof {
            lemma_cstring_terminates(self.sys, ptr);
        }
        get_cstring(&self.sys, ptr)
    }

    /// The "mount" trap: the host filesystem is considered always mounted,
    /// so this reports success and returns.
    pub fn hostfs_mos_f_mount(&mut self) -> (ok: bool)
        requires
            old(self).sys.inv(),
        ensures
            final(self).sys == old(self).sys,
            trap_done(old(self).state, final(self).sys, MOS_ERR_OK, ok, final(self).state),
    {
        self.state.reg.set24(Reg16::HL, 0);
        self.try_subroutine_return()
    }

    /// The "get volume label" trap: writes the fixed label, NUL-terminated,
    /// into the guest buffer whose address is the first argument, and
    /// reports success.
    pub fn hostfs_mos_f_getlabel(&mut self) -> (ok: bool)
        requires
            old(self).sys.inv(),
        ensures
            final(self).sys.inv(),
            final(self).sys.io_view() == old(self).sys.io_view(),
            ({
                let buf = stack_arg(old(self).state, old(self).sys, 6);
                &&& wrote_bytes(old(self).sys, final(self).sys, buf, label_bytes())
                &&& trap_done(old(self).state, final(self).sys, MOS_ERR_OK, ok, final(self).state)
            }),
    {
        let buf = self.trap_arg(6);
        let mut label: Vec<u8> = Vec::new();
        label.push(104);  // h
        label.push(111);  // o
        label.push(115);  // s
        label.push(116);  // t
        label.push(102);  // f
        label.push(115);  // s
        label.push(0);
        proof {
            assert(label@ =~= label_bytes());
        }
        memcpy_to_z80(&mut self.sys, buf, label.as_slice());
        self.state.reg.set24(Reg16::HL, 0);
        self.try_subroutine_return()
    }
}

/// The volume label the "get label" trap reports: `hostfs`, NUL-terminated.
pub open spec fn label_bytes() -> Seq<u8> {
    seq![104u8, 111u8, 115u8, 116u8, 102u8, 115u8, 0u8]
}

/// The host-filesystem layer's own state: which guest structure addresses
/// currently own a host file or directory iterator, whether the layer is
/// enabled at all (it is not when the loaded firmware is not the pinned
/// build), and the emulated current directory as a list of path segments
/// relative to the process working directory.
///
/// A structure address is the identity key of an open resource: at most one
/// resource per address, and the association never survives the close trap.
/// The host resources themselves (files, iterators) are owned by the
/// embedding application, keyed the same way.
pub struct HostFs {
    pub open_files: Vec<u32>,
    pub open_dirs: Vec<u32>,
    pub enable_hostfs: bool,
    pub hostfs_current_dir: Vec<Vec<u8>>,
}

impl HostFs {
    /// Each handle table holds each key at most once.
    pub open spec fn inv(&self) -> bool {
        &&& self.open_files@.no_duplicates()
        &&& self.open_dirs@.no_duplicates()
    }

    /// A fresh layer: no open handles, the root of the working directory,
    /// and the layer enabled (the loader disables it on a checksum
    /// mismatch).
    pub fn new() -> (fs: HostFs)
        ensures
            fs.inv(),
            fs.open_files@ == Seq::<u32>::empty(),
            fs.open_dirs@ == Seq::<u32>::empty(),
            fs.enable_hostfs,
            fs.hostfs_current_dir@ == Seq::<Vec<u8>>::empty(),
    {
        HostFs {
            open_files: Vec::new(),
            open_dirs: Vec::new(),
            enable_hostfs: true,
            hostfs_current_dir: Vec::new(),
        }
    }

    pub fn set_hostfs_enabled(&mut self, enabled: bool)
        ensures
            *final(self) == (HostFs { enable_hostfs: enabled, ..*old(self) }),
    {
        self.enable_hostfs = enabled;
    }

    /// Whether a guest file structure address owns an open host file.
    pub fn is_open_file(&self, fptr: u32) -> (open: bool)
        ensures
            open == self.open_files@.contains(fptr),
    {
        vec_contains(&self.open_files, fptr)
    }

    /// Whether a guest directory structure address owns an open iterator.
    pub fn is_open_dir(&self, dir_ptr: u32) -> (open: bool)
        ensures
            open == self.open_dirs@.contains(dir_ptr),
    {
        vec_contains(&self.open_dirs, dir_ptr)
    }

    /// The "close" trap: deregisters the handle and reports success.  The
    /// returned address tells the embedding application which host file to
    /// release.
    pub fn hostfs_mos_f_close(&mut self, env: &mut Environment<AgonMachine>) -> (r: (u32, bool))
        requires
            old(self).inv(),
            old(env).sys.inv(),
        ensures
            final(self).inv(),
            final(env).sys == old(env).sys,
            final(self).open_dirs == old(self).open_dirs,
            final(self).enable_hostfs == old(self).enable_hostfs,
            final(self).hostfs_current_dir == old(self).hostfs_current_dir,
            r.0 == stack_arg(old(env).state, old(env).sys, 3),
            forall|g: u32|
                final(self).open_files@.contains(g) == (old(self).open_files@.contains(g) && g
                    != r.0),
            trap_done(old(env).state, final(env).sys, MOS_ERR_OK, r.1, final(env).state),
    {
        let fptr = env.trap_arg(3);
        vec_remove(&mut self.open_files, fptr);
        env.state.reg.set24(Reg16::HL, 0);
        let ok = env.try_subroutine_return();
        (fptr, ok)
    }

    /// The "close directory" trap: deregisters the iterator and reports
    /// success.
    pub fn hostfs_mos_f_closedir(&mut self, env: &mut Environment<AgonMachine>) -> (r: (
        u32,
        bool,
    ))
        requires
            old(self).inv(),
            old(env).sys.inv(),
        ensures
            final(self).inv(),
            final(env).sys == old(env).sys,
            final(self).open_files == old(self).open_files,
            final(self).enable_hostfs == old(self).enable_hostfs,
            final(self).hostfs_current_dir == old(self).hostfs_current_dir,
            r.0 == stack_arg(old(env).state, old(env).sys, 3),
            forall|g: u32|
                final(self).open_dirs@.contains(g) == (old(self).open_dirs@.contains(g) && g
                    != r.0),
            trap_done(old(env).state, final(env).sys, MOS_ERR_OK, r.1, final(env).state),
    {
        let dir_ptr = env.trap_arg(3);
        vec_remove(&mut self.open_dirs, dir_ptr);
        env.state.reg.set24(Reg16::HL, 0);
        let ok = env.try_subroutine_return();
        (dir_ptr, ok)
    }
}

/// A byte the path trimming strips: ASCII whitespace.
pub open spec fn is_ascii_ws(b: u8) -> bool {
    b == 32 || (9 <= b && b <= 13)
}

/// The byte sequence with trailing ASCII whitespace removed.
pub open spec fn trim_end_spec(s: Seq<u8>) -> Seq<u8>
    decreases s.len(),
{
    if s.len() > 0 && is_ascii_ws(s.last()) {
        trim_end_spec(s.drop_last())
    } else {
        s
    }
}

/// Whether a guest path is absolute: it starts with a separator and then
/// resolves against the process working directory instead of the emulated
/// current directory.
pub open spec fn open_path_absolute(s: Seq<u8>) -> bool {
    s.len() > 0 && s[0] == 47
}

/// The host-side file name of a guest path: the leading separator of an
/// absolute path stripped, trailing whitespace trimmed.
pub open spec fn open_path_name(s: Seq<u8>) -> Seq<u8> {
    if open_path_absolute(s) {
        trim_end_spec(s.skip(1))
    } else {
        trim_end_spec(s)
    }
}

/// A guest path resolved into what the embedding application joins onto a
/// host directory.
pub struct OpenPath {
    pub absolute: bool,
    pub name: Vec<u8>,
}

fn is_ws_byte(b: u8) -> (ws: bool)
    ensures
        ws == is_ascii_ws(b),
{
    b == 32 || (b >= 9 && b <= 13)
}

/// Resolves a guest path for the "open" trap: a leading separator makes it
/// absolute (and is stripped), and trailing whitespace is trimmed.
pub fn open_path(filename: &Vec<u8>) -> (p: OpenPath)
    ensures
        p.absolute == open_path_absolute(filename@),
        p.name@ == open_path_name(filename@),
{
    let absolute = filename.len() > 0 && {
        let b = filename[0];
        b == 47
    };
    let start: usize = if absolute {
        1
    } else {
        0
    };
    let mut end: usize = filename.len();
    proof {
        assert(filename@.skip(start as int) =~= filename@.subrange(start as int, end as int));
    }
    while end > start && is_ws_byte(filename[end - 1])
        invariant
            start <= end <= filename@.len(),
            start <= 1,
            trim_end_spec(filename@.skip(start as int)) == trim_end_spec(
                filename@.subrange(start as int, end as int),
            ),
        decreases end,
    {
        proof {
            let cur = filename@.subrange(start as int, end as int);
            assert(cur.last() == filename@[end - 1]);
            assert(cur.drop_last() =~= filename@.subrange(start as int, end as int - 1));
        }
        end = end - 1;
    }
    proof {
        let fin = filename@.subrange(start as int, end as int);
        if end > start {
            assert(fin.last() == filename@[end - 1]);
        }
        assert(trim_end_spec(fin) == fin);
    }
    let mut name: Vec<u8> = Vec::new();
    let mut i: usize = start;
    while i < end
        invariant
            start <= i <= end <= filename@.len(),
            name@ =~= filename@.subrange(start as int, i as int),
            trim_end_spec(filename@.skip(start as int)) == filename@.subrange(
                start as int,
                end as int,
            ),
        decreases end - i,
    {
        name.push(filename[i]);
        proof {
            let ghost iprev = i as int;
            assert(name@ =~= filename@.subrange(start as int, iprev + 1));
        }
        i = i + 1;
    }
    proof {
        assert(name@ =~= filename@.subrange(start as int, end as int));
        if !absolute {
            assert(filename@.skip(0) =~= filename@);
        }
    }
    OpenPath { absolute, name }
}

/// The current directory seen through views: each segment as its bytes.
pub open spec fn dir_view(d: Seq<Vec<u8>>) -> Seq<Seq<u8>> {
    d.map_values(|v: Vec<u8>| v@)
}

/// What the "change directory" trap makes of the current directory: `..`
/// pops the last segment (the root stays the root), anything else is joined
/// on as one more segment.
pub open spec fn chdir_candidate_spec(cur: Seq<Seq<u8>>, cd: Seq<u8>) -> Seq<Seq<u8>> {
    if cd == seq![46u8, 46u8] {
        if cur.len() == 0 {
            cur
        } else {
            cur.drop_last()
        }
    } else {
        cur.push(cd)
    }
}

/// Memory after the "open" trap succeeded: the whole guest file structure
/// zeroed, then the (capped) file size written into its size field.
pub open spec fn fil_struct_written<M: Machine>(pre: M, post: M, fptr: u32, size: u32) -> bool {
    &&& forall|x: u32|
        post.peek_spec(x) == (if fptr + FIL_MEMBER_OBJSIZE <= x < fptr + FIL_MEMBER_OBJSIZE + 3
            && pre.writable(x) {
            if x == fptr + FIL_MEMBER_OBJSIZE {
                byte0(size)
            } else if x == fptr + FIL_MEMBER_OBJSIZE + 1 {
                byte1(size)
            } else {
                byte2(size)
            }
        } else if fptr <= x < fptr + SIZEOF_MOS_FIL_STRUCT && pre.writable(x) {
            0u8
        } else {
            pre.peek_spec(x)
        })
    &&& forall|x: u32| post.writable(x) == pre.writable(x)
}

/// Memory after the "read" trap succeeded: the bytes the host handed back
/// land in the guest buffer, and the new file position (truncated to 24
/// bits as the position field holds) lands in the file structure.
pub open spec fn read_mem_written<M: Machine>(
    pre: M,
    post: M,
    buf: u32,
    data: Seq<u8>,
    fptr: u32,
    fpos: u64,
) -> bool {
    let p = fptr + FIL_MEMBER_FPTR;
    let fpos_low = (fpos % 0x1_0000_0000) as u32;
    &&& forall|x: u32|
        post.peek_spec(x) == (if p <= x < p + 3 && pre.writable(x) {
            if x == p {
                byte0(fpos_low)
            } else if x == p + 1 {
                byte1(fpos_low)
            } else {
                byte2(fpos_low)
            }
        } else if buf <= x < buf + data.len() && pre.writable(x) {
            data[x - buf]
        } else {
            pre.peek_spec(x)
        })
    &&& forall|x: u32| post.writable(x) == pre.writable(x)
}

/// Memory after the "write" trap succeeded: the new file position lands in
/// the file structure, and the count of bytes written — always the full
/// requested count — is reported through the out-pointer slot.  That slot is
/// read from the same stack position as the count itself, so the count is
/// stored at the address equal to its own value; this mirrors the
/// substituted firmware convention and is preserved as observed.
pub open spec fn write_mem_written<M: Machine>(
    pre: M,
    post: M,
    fptr: u32,
    num: u32,
    fpos: u64,
) -> bool {
    let p = fptr + FIL_MEMBER_FPTR;
    let fpos_low = (fpos % 0x1_0000_0000) as u32;
    &&& forall|x: u32|
        post.peek_spec(x) == (if num <= x < num + 3 && pre.writable(x) {
            if x == num {
                byte0(num)
            } else if x == num + 1 {
                byte1(num)
            } else {
                byte2(num)
            }
        } else if p <= x < p + 3 && pre.writable(x) {
            if x == p {
                byte0(fpos_low)
            } else if x == p + 1 {
                byte1(fpos_low)
            } else {
                byte2(fpos_low)
            }
        } else {
            pre.peek_spec(x)
        })
    &&& forall|x: u32| post.writable(x) == pre.writable(x)
}

/// Memory after the "read line" trap succeeded: the new file position in
/// the file structure, the collected line in the guest buffer, and a
/// terminating NUL after it.
pub open spec fn gets_mem_written<M: Machine>(
    pre: M,
    post: M,
    buf: u32,
    line: Seq<u8>,
    fptr: u32,
    fpos: u64,
) -> bool {
    let p = fptr + FIL_MEMBER_FPTR;
    let fpos_low = (fpos % 0x1_0000_0000) as u32;
    &&& forall|x: u32|
        post.peek_spec(x) == (if x == buf + line.len() && pre.writable(x) {
            0u8
        } else if buf <= x < buf + line.len() && pre.writable(x) {
            line[x - buf]
        } else if p <= x < p + 3 && pre.writable(x) {
            if x == p {
                byte0(fpos_low)
            } else if x == p + 1 {
                byte1(fpos_low)
            } else {
                byte2(fpos_low)
            }
        } else {
            pre.peek_spec(x)
        })
    &&& forall|x: u32| post.writable(x) == pre.writable(x)
}

/// The sentinel name the "read directory entry" trap reports when an
/// entry's metadata cannot be read.
pub open spec fn metadata_error_name() -> Seq<u8> {
    seq![
        60u8, 101u8, 114u8, 114u8, 111u8, 114u8, 32u8, 114u8, 101u8, 97u8, 100u8, 105u8, 110u8,
        103u8, 32u8, 102u8, 105u8, 108u8, 101u8, 32u8, 109u8, 101u8, 116u8, 97u8, 100u8, 97u8,
        116u8, 97u8, 62u8,
    ]
}

/// Memory after a "read directory entry" trap that wrote only a name: the
/// file-info structure zeroed, then the name at its name field.
pub open spec fn readdir_name_written<M: Machine>(pre: M, post: M, fi: u32, name: Seq<u8>) -> bool {
    &&& forall|x: u32|
        post.peek_spec(x) == (if fi + FILINFO_MEMBER_FNAME_256BYTES <= x < fi
            + FILINFO_MEMBER_FNAME_256BYTES + name.len() && pre.writable(x) {
            name[x - (fi + FILINFO_MEMBER_FNAME_256BYTES)]
        } else if fi <= x < fi + SIZEOF_MOS_FILINFO_STRUCT && pre.writable(x) {
            0u8
        } else {
            pre.peek_spec(x)
        })
    &&& forall|x: u32| post.writable(x) == pre.writable(x)
}

/// Memory after a "read directory entry" trap that yielded an entry: the
/// file-info structure zeroed, then the entry's name in the name field, its
/// size as four little-endian bytes in the size field, and the directory
/// attribute bit when the entry is itself a directory.
pub open spec fn readdir_entry_written<M: Machine>(
    pre: M,
    post: M,
    fi: u32,
    name: Seq<u8>,
    size: u64,
    is_dir: bool,
) -> bool {
    let s32 = (size % 0x1_0000_0000) as u32;
    &&& forall|x: u32|
        post.peek_spec(x) == (if x == fi + FILINFO_MEMBER_FATTRIB_U8 && is_dir && pre.writable(x) {
            AM_DIR
        } else if x == fi + FILINFO_MEMBER_FSIZE_U32 && pre.writable(x) {
            byte0(s32)
        } else if x == fi + FILINFO_MEMBER_FSIZE_U32 + 1 && pre.writable(x) {
            byte1(s32)
        } else if x == fi + FILINFO_MEMBER_FSIZE_U32 + 2 && pre.writable(x) {
            byte2(s32)
        } else if x == fi + FILINFO_MEMBER_FSIZE_U32 + 3 && pre.writable(x) {
            (size / 0x100_0000 % 0x100) as u8
        } else if fi + FILINFO_MEMBER_FNAME_256BYTES <= x < fi + FILINFO_MEMBER_FNAME_256BYTES
            + name.len() && pre.writable(x) {
            name[x - (fi + FILINFO_MEMBER_FNAME_256BYTES)]
        } else if fi <= x < fi + SIZEOF_MOS_FILINFO_STRUCT && pre.writable(x) {
            0u8
        } else {
            pre.peek_spec(x)
        })
    &&& forall|x: u32| post.writable(x) == pre.writable(x)
}

/// Whether a byte ends the "read line" trap's collection: a newline or a
/// NUL (the byte itself is still collected).
pub fn gets_terminator(byte: u8) -> (stop: bool)
    ensures
        stop == (byte == 10 || byte == 0),
{
    byte == 10 || byte == 0
}

impl HostFs {
    /// The "change directory" trap.  The target path is read from the
    /// stack; `..` pops one segment off the emulated current directory,
    /// anything else is joined onto it; the candidate is committed only
    /// when the host found it to be an existing directory (`verdict`,
    /// produced by the embedding application from a host lookup of the
    /// candidate).  On any other verdict the current directory stays
    /// unchanged and the matching error code is reported.
    pub fn hostfs_mos_f_chdir(
        &mut self,
        env: &mut Environment<AgonMachine>,
        verdict: PathStatus,
    ) -> (ok: bool)
        requires
            old(self).inv(),
            old(env).sys.inv(),
        ensures
            final(self).inv(),
            final(env).sys == old(env).sys,
            final(self).open_files == old(self).open_files,
            final(self).open_dirs == old(self).open_dirs,
            final(self).enable_hostfs == old(self).enable_hostfs,
            ({
                let cd = cstring_at(old(env).sys, stack_arg(old(env).state, old(env).sys, 3));
                &&& dir_view(final(self).hostfs_current_dir@) == (if verdict == PathStatus::Dir {
                    chdir_candidate_spec(dir_view(old(self).hostfs_current_dir@), cd)
                } else {
                    dir_view(old(self).hostfs_current_dir@)
                })
                &&& trap_done(
                    old(env).state,
                    final(env).sys,
                    chdir_code(verdict),
                    ok,
                    final(env).state,
                )
            }),
    {
        let cd_to = env.trap_cstring_arg(3);
        let code: u32 = match verdict {
            PathStatus::Dir => {
                let candidate = self.chdir_candidate(&cd_to);
                self.hostfs_current_dir = candidate;
                0
            },
            PathStatus::NotDir => 1,
            PathStatus::NotFound => 4,
            PathStatus::Error => 1,
        };
        env.state.reg.set24(Reg16::HL, code);
        env.try_subroutine_return()
    }

    /// What the current directory would become for a given "change
    /// directory" target (see [`chdir_candidate_spec`]): `..` pops the last
    /// segment, anything else is joined on.  The embedding application
    /// resolves this candidate on the host to produce the verdict the
    /// handler commits on.
    pub fn chdir_candidate(&self, cd_to: &Vec<u8>) -> (r: Vec<Vec<u8>>)
        ensures
            dir_view(r@) == chdir_candidate_spec(dir_view(self.hostfs_current_dir@), cd_to@),
    {
        let dotdot = cd_to.len() == 2 && {
            let b0 = cd_to[0];
            let b1 = cd_to[1];
            b0 == 46 && b1 == 46
        };
        proof {
            if dotdot {
                assert(cd_to@ =~= seq![46u8, 46u8]);
            } else if cd_to@ == seq![46u8, 46u8] {
                assert(cd_to@.len() == 2 && cd_to@[0] == 46 && cd_to@[1] == 46);
            }
        }
        let n: usize = if dotdot && self.hostfs_current_dir.len() > 0 {
            self.hostfs_current_dir.len() - 1
        } else {
            self.hostfs_current_dir.len()
        };
        let mut r: Vec<Vec<u8>> = Vec::new();
        let mut i: usize = 0;
        while i < n
            invariant
                n <= self.hostfs_current_dir@.len(),
                i <= n,
                r@.len() == i,
                forall|j: int| 0 <= j < i ==> #[trigger] r@[j]@ == self.hostfs_current_dir@[j]@,
            decreases n - i,
        {
            r.push(copy_bytes(&self.hostfs_current_dir[i]));
            i = i + 1;
        }
        if !dotdot {
            r.push(copy_bytes(cd_to));
        }
        proof {
            assert(dir_view(r@) =~= chdir_candidate_spec(
                dir_view(self.hostfs_current_dir@),
                cd_to@,
            ));
        }
        r
    }

    /// The "open" trap's success path commits what the substituted firmware
    /// would have: the guest file structure is zeroed, the host file's size
    /// (capped to the working region's size, as larger files are not
    /// supported) is written into its size field, and the structure address
    /// is registered as owning the open host file.  On a host failure the
    /// matching error code is reported and nothing is registered.  The
    /// embedding application resolves the path (see [`open_path`]) and
    /// opens the host file — with read access always, write and create
    /// access as the guest's mode bits ask — and hands the outcome in.
    pub fn hostfs_mos_f_open(
        &mut self,
        env: &mut Environment<AgonMachine>,
        outcome: Result<u64, HostIoError>,
    ) -> (ok: bool)
        requires
            old(self).inv(),
            old(env).sys.inv(),
        ensures
            final(self).inv(),
            final(env).sys.inv(),
            final(env).sys.io_view() == old(env).sys.io_view(),
            final(self).open_dirs == old(self).open_dirs,
            final(self).enable_hostfs == old(self).enable_hostfs,
            final(self).hostfs_current_dir == old(self).hostfs_current_dir,
            ({
                let fptr = stack_arg(old(env).state, old(env).sys, 3);
                match outcome {
                    Ok(host_len) => {
                        let size = if host_len > 0x80000 {
                            0x80000u32
                        } else {
                            host_len as u32
                        };
                        &&& fil_struct_written(old(env).sys, final(env).sys, fptr, size)
                        &&& forall|g: u32|
                            final(self).open_files@.contains(g) == (old(
                                self,
                            ).open_files@.contains(g) || g == fptr)
                        &&& trap_done(
                            old(env).state,
                            final(env).sys,
                            MOS_ERR_OK,
                            ok,
                            final(env).state,
                        )
                    },
                    Err(e) => {
                        &&& final(env).sys == old(env).sys
                        &&& final(self).open_files == old(self).open_files
                        &&& trap_done(
                            old(env).state,
                            final(env).sys,
                            host_error_code(e),
                            ok,
                            final(env).state,
                        )
                    },
                }
            }),
    {
        let fptr = env.trap_arg(3);
        match outcome {
            Ok(host_len) => {
                memset(&mut env.sys, fptr, 0, SIZEOF_MOS_FIL_STRUCT);
                let size: u32 = if host_len > 0x80000 {
                    0x80000
                } else {
                    host_len as u32
                };
                poke24_linear(&mut env.sys, fptr + FIL_MEMBER_OBJSIZE, size);
                vec_insert(&mut self.open_files, fptr);
                env.state.reg.set24(Reg16::HL, 0);
            },
            Err(e) => {
                let code: u32 = match e {
                    HostIoError::NotFound => 4,
                    HostIoError::Other => 1,
                };
                env.state.reg.set24(Reg16::HL, code);
            },
        }
        env.try_subroutine_return()
    }

    /// The "read" trap: the bytes the host read (the embedding application
    /// reads up to the requested length from the registered file) go into
    /// the guest buffer, and the file's new position into the structure's
    /// position field.  An unregistered handle reports error code 1.
    pub fn hostfs_mos_f_read(
        &mut self,
        env: &mut Environment<AgonMachine>,
        host: Option<HostRead>,
    ) -> (ok: bool)
        requires
            old(self).inv(),
            old(env).sys.inv(),
            old(self).open_files@.contains(stack_arg(old(env).state, old(env).sys, 3))
                <==> host is Some,
            host matches Some(h) ==> h.data@.len() <= 0xf000_0000,
        ensures
            final(self).inv(),
            final(env).sys.inv(),
            final(env).sys.io_view() == old(env).sys.io_view(),
            *final(self) == *old(self),
            ({
                let fptr = stack_arg(old(env).state, old(env).sys, 3);
                let buf = stack_arg(old(env).state, old(env).sys, 6);
                match host {
                    Some(h) => {
                        &&& read_mem_written(
                            old(env).sys,
                            final(env).sys,
                            buf,
                            h.data@,
                            fptr,
                            h.fpos,
                        )
                        &&& trap_done(
                            old(env).state,
                            final(env).sys,
                            MOS_ERR_OK,
                            ok,
                            final(env).state,
                        )
                    },
                    None => {
                        &&& final(env).sys == old(env).sys
                        &&& trap_done(
                            old(env).state,
                            final(env).sys,
                            MOS_ERR_GENERAL,
                            ok,
                            final(env).state,
                        )
                    },
                }
            }),
    {
        let fptr = env.trap_arg(3);
        let buf = env.trap_arg(6);
        match host {
            Some(h) => {
                memcpy_to_z80(&mut env.sys, buf, h.data.as_slice());
                poke24_linear(
                    &mut env.sys,
                    fptr + FIL_MEMBER_FPTR,
                    (h.fpos % 0x1_0000_0000) as u32,
                );
                env.state.reg.set24(Reg16::HL, 0);
            },
            None => {
                env.state.reg.set24(Reg16::HL, 1);
            },
        }
        env.try_subroutine_return()
    }

    /// The "write" trap: the embedding application writes the guest bytes
    /// to the registered host file (panicking on a host failure, which has
    /// no guest-visible code) and hands back the new file position.  The
    /// position field is updated and the reported written count always
    /// equals the requested count, whatever the host did with the bytes —
    /// a known simplification of this layer.  An unregistered handle
    /// reports error code 1.
    pub fn hostfs_mos_f_write(
        &mut self,
        env: &mut Environment<AgonMachine>,
        host: Option<u64>,
    ) -> (ok: bool)
        requires
            old(self).inv(),
            old(env).sys.inv(),
            old(self).open_files@.contains(stack_arg(old(env).state, old(env).sys, 3))
                <==> host is Some,
        ensures
            final(self).inv(),
            final(env).sys.inv(),
            final(env).sys.io_view() == old(env).sys.io_view(),
            *final(self) == *old(self),
            ({
                let fptr = stack_arg(old(env).state, old(env).sys, 3);
                let num = stack_arg(old(env).state, old(env).sys, 9);
                match host {
                    Some(fpos) => {
                        &&& write_mem_written(old(env).sys, final(env).sys, fptr, num, fpos)
                        &&& trap_done(
                            old(env).state,
                            final(env).sys,
                            MOS_ERR_OK,
                            ok,
                            final(env).state,
                        )
                    },
                    None => {
                        &&& final(env).sys == old(env).sys
                        &&& trap_done(
                            old(env).state,
                            final(env).sys,
                            MOS_ERR_GENERAL,
                            ok,
                            final(env).state,
                        )
                    },
                }
            }),
    {
        let fptr = env.trap_arg(3);
        let num = env.trap_arg(9);
        match host {
            Some(fpos) => {
                poke24_linear(
                    &mut env.sys,
                    fptr + FIL_MEMBER_FPTR,
                    (fpos % 0x1_0000_0000) as u32,
                );
                poke24_linear(&mut env.sys, num, num);
                env.state.reg.set24(Reg16::HL, 0);
            },
            None => {
                env.state.reg.set24(Reg16::HL, 1);
            },
        }
        env.try_subroutine_return()
    }

    /// The "read line" trap: the embedding application collects bytes from
    /// the registered host file one at a time until [`gets_terminator`]
    /// says stop or the guest's maximum length is reached, and hands the
    /// collected line (terminator included) with the new file position in.
    /// The line lands in the guest buffer with a NUL after it, and the
    /// position field is updated.  An unregistered handle reports error
    /// code 1.
    pub fn hostfs_mos_f_gets(
        &mut self,
        env: &mut Environment<AgonMachine>,
        host: Option<HostRead>,
    ) -> (ok: bool)
        requires
            old(self).inv(),
            old(env).sys.inv(),
            old(self).open_files@.contains(stack_arg(old(env).state, old(env).sys, 9))
                <==> host is Some,
            host matches Some(h) ==> h.data@.len() <= 0xf000_0000,
        ensures
            final(self).inv(),
            final(env).sys.inv(),
            final(env).sys.io_view() == old(env).sys.io_view(),
            *final(self) == *old(self),
            ({
                let buf = stack_arg(old(env).state, old(env).sys, 3);
                let fptr = stack_arg(old(env).state, old(env).sys, 9);
                match host {
                    Some(h) => {
                        &&& gets_mem_written(
                            old(env).sys,
                            final(env).sys,
                            buf,
                            h.data@,
                            fptr,
                            h.fpos,
                        )
                        &&& trap_done(
                            old(env).state,
                            final(env).sys,
                            MOS_ERR_OK,
                            ok,
                            final(env).state,
                        )
                    },
                    None => {
                        &&& final(env).sys == old(env).sys
                        &&& trap_done(
                            old(env).state,
                            final(env).sys,
                            MOS_ERR_GENERAL,
                            ok,
                            final(env).state,
                        )
                    },
                }
            }),
    {
        let buf = env.trap_arg(3);
        let fptr = env.trap_arg(9);
        match host {
            Some(h) => {
                poke24_linear(
                    &mut env.sys,
                    fptr + FIL_MEMBER_FPTR,
                    (h.fpos % 0x1_0000_0000) as u32,
                );
                let n = h.data.len();
                memcpy_to_z80(&mut env.sys, buf, h.data.as_slice());
                env.sys.poke(buf + (n as u32), 0);
                env.state.reg.set24(Reg16::HL, 0);
            },
            None => {
                env.state.reg.set24(Reg16::HL, 1);
            },
        }
        env.try_subroutine_return()
    }

    /// The "open directory" trap: on a successful host directory listing
    /// the guest structure address is registered as owning the iterator;
    /// on failure the matching error code is reported.  The path argument
    /// resolves against the emulated current directory; the embedding
    /// application performs the listing.
    pub fn hostfs_mos_f_opendir(
        &mut self,
        env: &mut Environment<AgonMachine>,
        outcome: Result<(), HostIoError>,
    ) -> (ok: bool)
        requires
            old(self).inv(),
            old(env).sys.inv(),
        ensures
            final(self).inv(),
            final(env).sys == old(env).sys,
            final(self).open_files == old(self).open_files,
            final(self).enable_hostfs == old(self).enable_hostfs,
            final(self).hostfs_current_dir == old(self).hostfs_current_dir,
            ({
                let dir_ptr = stack_arg(old(env).state, old(env).sys, 3);
                match outcome {
                    Ok(u) => {
                        &&& forall|g: u32|
                            final(self).open_dirs@.contains(g) == (old(
                                self,
                            ).open_dirs@.contains(g) || g == dir_ptr)
                        &&& trap_done(
                            old(env).state,
                            final(env).sys,
                            MOS_ERR_OK,
                            ok,
                            final(env).state,
                        )
                    },
                    Err(e) => {
                        &&& final(self).open_dirs == old(self).open_dirs
                        &&& trap_done(
                            old(env).state,
                            final(env).sys,
                            host_error_code(e),
                            ok,
                            final(env).state,
                        )
                    },
                }
            }),
    {
        let dir_ptr = env.trap_arg(3);
        match outcome {
            Ok(_) => {
                vec_insert(&mut self.open_dirs, dir_ptr);
                env.state.reg.set24(Reg16::HL, 0);
            },
            Err(e) => {
                let code: u32 = match e {
                    HostIoError::NotFound => 4,
                    HostIoError::Other => 1,
                };
                env.state.reg.set24(Reg16::HL, code);
            },
        }
        env.try_subroutine_return()
    }

    /// The "read directory entry" trap: the guest file-info structure is
    /// zeroed first, whatever happens.  On a yielded entry its name, size
    /// and directory bit are filled in; metadata trouble substitutes a
    /// sentinel name; at the end of the sequence the structure stays zeroed
    /// (an empty name tells the firmware the listing is over — and every
    /// further call reports the same).  An unknown handle or a failed
    /// iterator reports error code 1.  The embedding application advances
    /// the registered host iterator by exactly one and hands the event in.
    pub fn hostfs_mos_f_readdir(
        &mut self,
        env: &mut Environment<AgonMachine>,
        event: Option<DirEvent>,
    ) -> (ok: bool)
        requires
            old(self).inv(),
            old(env).sys.inv(),
            old(self).open_dirs@.contains(stack_arg(old(env).state, old(env).sys, 3))
                <==> event is Some,
            event matches Some(DirEvent::Entry { name, size, is_dir }) ==> name@.len()
                <= 0xf000_0000,
        ensures
            final(self).inv(),
            final(env).sys.inv(),
            final(env).sys.io_view() == old(env).sys.io_view(),
            *final(self) == *old(self),
            ({
                let fi = stack_arg(old(env).state, old(env).sys, 6);
                match event {
                    None => {
                        &&& filled(old(env).sys, final(env).sys, fi, 0, SIZEOF_MOS_FILINFO_STRUCT)
                        &&& trap_done(
                            old(env).state,
                            final(env).sys,
                            MOS_ERR_GENERAL,
                            ok,
                            final(env).state,
                        )
                    },
                    Some(ev) => match ev {
                        DirEvent::Entry { name, size, is_dir } => {
                            &&& readdir_entry_written(
                                old(env).sys,
                                final(env).sys,
                                fi,
                                name@,
                                size,
                                is_dir,
                            )
                            &&& trap_done(
                                old(env).state,
                                final(env).sys,
                                MOS_ERR_OK,
                                ok,
                                final(env).state,
                            )
                        },
                        DirEvent::MetaError => {
                            &&& readdir_name_written(
                                old(env).sys,
                                final(env).sys,
                                fi,
                                metadata_error_name(),
                            )
                            &&& trap_done(
                                old(env).state,
                                final(env).sys,
                                MOS_ERR_OK,
                                ok,
                                final(env).state,
                            )
                        },
                        DirEvent::IterError => {
                            &&& filled(
                                old(env).sys,
                                final(env).sys,
                                fi,
                                0,
                                SIZEOF_MOS_FILINFO_STRUCT,
                            )
                            &&& trap_done(
                                old(env).state,
                                final(env).sys,
                                MOS_ERR_GENERAL,
                                ok,
                                final(env).state,
                            )
                        },
                        DirEvent::End => {
                            &&& filled(
                                old(env).sys,
                                final(env).sys,
                                fi,
                                0,
                                SIZEOF_MOS_FILINFO_STRUCT,
                            )
                            &&& trap_done(
                                old(env).state,
                                final(env).sys,
                                MOS_ERR_OK,
                                ok,
                                final(env).state,
                            )
                        },
                    },
                }
            }),
    {
        let fi = env.trap_arg(6);
        memset(&mut env.sys, fi, 0, SIZEOF_MOS_FILINFO_STRUCT);
        let code: u32 = match event {
            None => 1,
            Some(ev) => match ev {
                DirEvent::Entry { name, size, is_dir } => {
                    memcpy_to_z80(
                        &mut env.sys,
                        fi + FILINFO_MEMBER_FNAME_256BYTES,
                        name.as_slice(),
                    );
                    let s32: u32 = (size % 0x1_0000_0000) as u32;
                    poke24_linear(&mut env.sys, fi + FILINFO_MEMBER_FSIZE_U32, s32);
                    env.sys.poke(
                        fi + FILINFO_MEMBER_FSIZE_U32 + 3,
                        ((size / 0x100_0000) % 0x100) as u8,
                    );
                    if is_dir {
                        env.sys.poke(fi + FILINFO_MEMBER_FATTRIB_U8, AM_DIR);
                    }
                    0
                },
                DirEvent::MetaError => {
                    let mut sentinel: Vec<u8> = Vec::new();
                    sentinel.push(60);
                    sentinel.push(101);
                    sentinel.push(114);
                    sentinel.push(114);
                    sentinel.push(111);
                    sentinel.push(114);
                    sentinel.push(32);
                    sentinel.push(114);
                    sentinel.push(101);
                    sentinel.push(97);
                    sentinel.push(100);
                    sentinel.push(105);
                    sentinel.push(110);
                    sentinel.push(103);
                    sentinel.push(32);
                    sentinel.push(102);
                    sentinel.push(105);
                    sentinel.push(108);
                    sentinel.push(101);
                    sentinel.push(32);
                    sentinel.push(109);
                    sentinel.push(101);
                    sentinel.push(116);
                    sentinel.push(97);
                    sentinel.push(100);
                    sentinel.push(97);
                    sentinel.push(116);
                    sentinel.push(97);
                    sentinel.push(62);
                    proof {
                        assert(sentinel@ =~= metadata_error_name());
                    }
                    memcpy_to_z80(
                        &mut env.sys,
                        fi + FILINFO_MEMBER_FNAME_256BYTES,
                        sentinel.as_slice(),
                    );
                    0
                },
                DirEvent::IterError => 1,
                DirEvent::End => 0,
            },
        };
        env.state.reg.set24(Reg16::HL, code);
        env.try_subroutine_return()
    }
}

/// An owned copy of a byte segment.
fn copy_bytes(v: &Vec<u8>) -> (r: Vec<u8>)
    ensures
        r@ == v@,
{
    let mut r: Vec<u8> = Vec::new();
    let mut i: usize = 0;
    while i < v.len()
        invariant
            i <= v@.len(),
            r@ =~= v@.subrange(0, i as int),
        decreases v@.len() - i,
    {
        r.push(v[i]);
        proof {
            let ghost iprev = i as int;
            assert(r@ =~= v@.subrange(0, iprev + 1));
        }
        i = i + 1;
    }
    proof {
        assert(r@ =~= v@);
    }
    r
}

/// Linear scan of a handle table.
fn vec_contains(v: &Vec<u32>, x: u32) -> (found: bool)
    ensures
        found == v@.contains(x),
{
    let mut i: usize = 0;
    while i < v.len()
        invariant
            i <= v@.len(),
            forall|j: int| 0 <= j < i ==> v@[j] != x,
        decreases v@.len() - i,
    {
        if v[i] == x {
            return true;
        }
        i = i + 1;
    }
    false
}

/// Adds a key to a handle table unless it is already there.
fn vec_insert(v: &mut Vec<u32>, x: u32)
    requires
        old(v)@.no_duplicates(),
    ensures
        final(v)@.no_duplicates(),
        forall|g: u32| final(v)@.contains(g) == (old(v)@.contains(g) || g == x),
{
    if !vec_contains(v, x) {
        v.push(x);
        proof {
            assert(final(v)@.drop_last() == old(v)@);
            assert forall|g: u32| final(v)@.contains(g) == (old(v)@.contains(g) || g
                == x) by {
                if old(v)@.contains(g) || g == x {
                    if g == x {
                        assert(final(v)@[final(v)@.len() - 1] == x);
                    } else {
                        let j = choose|j: int| 0 <= j < old(v)@.len() && old(v)@[j] == g;
                        assert(final(v)@[j] == g);
                    }
                } else {
                    if final(v)@.contains(g) {
                        let j = choose|j: int|
                            0 <= j < final(v)@.len() && final(v)@[j] == g;
                        assert(j < old(v)@.len() ==> old(v)@[j] == g);
                    }
                }
            }
        }
    }
}

/// Removes a key from a handle table.
fn vec_remove(v: &mut Vec<u32>, x: u32)
    requires
        old(v)@.no_duplicates(),
    ensures
        final(v)@.no_duplicates(),
        forall|g: u32| final(v)@.contains(g) == (old(v)@.contains(g) && g != x),
{
    let mut kept: Vec<u32> = Vec::new();
    let mut i: usize = 0;
    while i < v.len()
        invariant
            v@ == old(v)@,
            v@.no_duplicates(),
            i <= v@.len(),
            kept@.no_duplicates(),
            forall|g: u32|
                kept@.contains(g) == (v@.subrange(0, i as int).contains(g) && g != x),
        decreases v@.len() - i,
    {
        let g = v[i];
        let ghost iprev = i as int;
        let ghost k0 = kept@;
        proof {
            let pre = v@.subrange(0, iprev);
            let post = v@.subrange(0, iprev + 1);
            assert forall|h: u32| post.contains(h) == (pre.contains(h) || h == v@[iprev]) by {
                if post.contains(h) {
                    let j = choose|j: int| 0 <= j < post.len() && post[j] == h;
                    if j < iprev {
                        assert(pre[j] == h);
                    }
                } else {
                    if pre.contains(h) {
                        let j = choose|j: int| 0 <= j < pre.len() && pre[j] == h;
                        assert(post[j] == h);
                    }
                    assert(post[iprev] != h);
                }
            }
            if g != x && kept@.contains(g) {
                let j = choose|j: int| 0 <= j < pre.len() && pre[j] == g;
                assert(v@[j] == g && v@[iprev] == g && j != iprev);
                assert(false);
            }
        }
        if g != x {
            kept.push(g);
            proof {
                assert forall|p: int, q: int|
                    0 <= p < kept@.len() && 0 <= q < kept@.len() && p != q implies kept@[p]
                    != kept@[q] by {
                    if p < k0.len() && q < k0.len() {
                    } else if q == k0.len() && p < k0.len() {
                        assert(!k0.contains(g));
                        assert(k0[p] != g);
                    } else if p == k0.len() && q < k0.len() {
                        assert(!k0.contains(g));
                        assert(k0[q] != g);
                    }
                }
                assert forall|h: u32| kept@.contains(h) == (k0.contains(h) || h == g) by {
                    if kept@.contains(h) {
                        let j = choose|j: int| 0 <= j < kept@.len() && kept@[j] == h;
                        if j < k0.len() {
                            assert(k0[j] == h);
                        }
                    } else {
                        if k0.contains(h) {
                            let j = choose|j: int| 0 <= j < k0.len() && k0[j] == h;
                            assert(kept@[j] == h);
                        }
                        assert(kept@[k0.len() as int] == g);
                    }
                }
            }
        }
        proof {
            assert forall|h: u32|
                kept@.contains(h) == (v@.subrange(0, iprev + 1).contains(h) && h != x) by {
                assert(v@.subrange(0, iprev + 1).contains(h) == (v@.subrange(0, iprev).contains(h)
                    || h == v@[iprev]));
                assert(k0.contains(h) == (v@.subrange(0, iprev).contains(h) && h != x));
                if g != x {
                    assert(kept@.contains(h) == (k0.contains(h) || h == g));
                } else {
                    assert(kept@ == k0);
                }
            }
        }
        i = i + 1;
        proof {
            assert(v@.subrange(0, i as int) =~= v@.subrange(0, iprev + 1));
        }
    }
    proof {
        assert(v@.subrange(0, v@.len() as int) == v@);
    }
    *v = kept;
}

} // verus!
