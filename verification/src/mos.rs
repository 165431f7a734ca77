//! The pinned firmware contract: fixed structure offsets, open-mode bits,
//! error codes, the checksum of the one supported firmware build, and its
//! file-I/O entry-point addresses.  These constants are only valid for that
//! one build; the loader disables the whole virtualization layer when the
//! checksum does not match.

use vstd::prelude::*;

verus! {

// Firmware file-object structure (FatFS `FIL`) layout.
pub const SIZEOF_MOS_FIL_STRUCT: u32 = 36;

pub const FIL_MEMBER_OBJSIZE: u32 = 11;

pub const FIL_MEMBER_FPTR: u32 = 17;

// Firmware file-info structure (FatFS `FILINFO`) layout.
pub const SIZEOF_MOS_FILINFO_STRUCT: u32 = 278;

pub const FILINFO_MEMBER_FSIZE_U32: u32 = 0;

pub const FILINFO_MEMBER_FATTRIB_U8: u32 = 8;

pub const FILINFO_MEMBER_FNAME_256BYTES: u32 = 22;

/// Attribute bit for a directory entry.
pub const AM_DIR: u8 = 0x10;

// Open-mode bits of the firmware "open" call.
pub const FA_WRITE: u32 = 2;

pub const FA_CREATE_NEW: u32 = 4;

// Guest-visible result codes of the firmware file calls.
pub const MOS_ERR_OK: u32 = 0;

pub const MOS_ERR_GENERAL: u32 = 1;

pub const MOS_ERR_NOT_FOUND: u32 = 4;

/// Checksum of the one firmware build whose entry addresses and structure
/// offsets this layer knows.
pub const MOS_103_CHECKSUM: u32 = 0xc102d8;

/// The firmware file-I/O entry points of the pinned build.
#[derive(Clone, Copy, PartialEq, Eq, Structural, Debug)]
pub enum MosCall {
    FChdir,
    FChdrive,
    FClose,
    FClosedir,
    FGetcwd,
    FGetfree,
    FGetlabel,
    FGets,
    FLseek,
    FMkdir,
    FMount,
    FOpen,
    FOpendir,
    FPrintf,
    FPutc,
    FPuts,
    FRead,
    FReaddir,
    FRename,
    FSetlabel,
    FStat,
    FSync,
    FTruncate,
    FUnlink,
    FWrite,
}

/// The call trapped at a program-counter value, if any.
pub open spec fn mos_call_at_spec(pc: u32) -> Option<MosCall> {
    if pc == 0x82B2 {
        Some(MosCall::FChdir)
    } else if pc == 0x827A {
        Some(MosCall::FChdrive)
    } else if pc == 0x822B {
        Some(MosCall::FClose)
    } else if pc == 0x8B5B {
        Some(MosCall::FClosedir)
    } else if pc == 0x8371 {
        Some(MosCall::FGetcwd)
    } else if pc == 0x8CE8 {
        Some(MosCall::FGetfree)
    } else if pc == 0x9816 {
        Some(MosCall::FGetlabel)
    } else if pc == 0x9C91 {
        Some(MosCall::FGets)
    } else if pc == 0x8610 {
        Some(MosCall::FLseek)
    } else if pc == 0x92F6 {
        Some(MosCall::FMkdir)
    } else if pc == 0x72F7 {
        Some(MosCall::FMount)
    } else if pc == 0x738C {
        Some(MosCall::FOpen)
    } else if pc == 0x8A52 {
        Some(MosCall::FOpendir)
    } else if pc == 0x9F11 {
        Some(MosCall::FPrintf)
    } else if pc == 0x9E8E {
        Some(MosCall::FPutc)
    } else if pc == 0x9EC4 {
        Some(MosCall::FPuts)
    } else if pc == 0x785E {
        Some(MosCall::FRead)
    } else if pc == 0x8B92 {
        Some(MosCall::FReaddir)
    } else if pc == 0x9561 {
        Some(MosCall::FRename)
    } else if pc == 0x99DB {
        Some(MosCall::FSetlabel)
    } else if pc == 0x8C55 {
        Some(MosCall::FStat)
    } else if pc == 0x8115 {
        Some(MosCall::FSync)
    } else if pc == 0x8F78 {
        Some(MosCall::FTruncate)
    } else if pc == 0x911A {
        Some(MosCall::FUnlink)
    } else if pc == 0x7C10 {
        Some(MosCall::FWrite)
    } else {
        None
    }
}

/// Looks the program counter up in the trap table of the pinned firmware
/// build: `Some` exactly at a known entry-point address.
pub fn mos_call_at(pc: u32) -> (call: Option<MosCall>)
    ensures
        call == mos_call_at_spec(pc),
{
    if pc == 0x82B2 {
        Some(MosCall::FChdir)
    } else if pc == 0x827A {
        Some(MosCall::FChdrive)
    } else if pc == 0x822B {
        Some(MosCall::FClose)
    } else if pc == 0x8B5B {
        Some(MosCall::FClosedir)
    } else if pc == 0x8371 {
        Some(MosCall::FGetcwd)
    } else if pc == 0x8CE8 {
        Some(MosCall::FGetfree)
    } else if pc == 0x9816 {
        Some(MosCall::FGetlabel)
    } else if pc == 0x9C91 {
        Some(MosCall::FGets)
    } else if pc == 0x8610 {
        Some(MosCall::FLseek)
    } else if pc == 0x92F6 {
        Some(MosCall::FMkdir)
    } else if pc == 0x72F7 {
        Some(MosCall::FMount)
    } else if pc == 0x738C {
        Some(MosCall::FOpen)
    } else if pc == 0x8A52 {
        Some(MosCall::FOpendir)
    } else if pc == 0x9F11 {
        Some(MosCall::FPrintf)
    } else if pc == 0x9E8E {
        Some(MosCall::FPutc)
    } else if pc == 0x9EC4 {
        Some(MosCall::FPuts)
    } else if pc == 0x785E {
        Some(MosCall::FRead)
    } else if pc == 0x8B92 {
        Some(MosCall::FReaddir)
    } else if pc == 0x9561 {
        Some(MosCall::FRename)
    } else if pc == 0x99DB {
        Some(MosCall::FSetlabel)
    } else if pc == 0x8C55 {
        Some(MosCall::FStat)
    } else if pc == 0x8115 {
        Some(MosCall::FSync)
    } else if pc == 0x8F78 {
        Some(MosCall::FTruncate)
    } else if pc == 0x911A {
        Some(MosCall::FUnlink)
    } else if pc == 0x7C10 {
        Some(MosCall::FWrite)
    } else {
        None
    }
}

/// Whether a trapped call has a host-side handler.  The others are observed
/// (the embedding application may note them) and fall through to the
/// firmware's own code: no forced return happens.
pub open spec fn is_handled_spec(call: MosCall) -> bool {
    match call {
        MosCall::FChdir => true,
        MosCall::FClose => true,
        MosCall::FClosedir => true,
        MosCall::FGetlabel => true,
        MosCall::FGets => true,
        MosCall::FMount => true,
        MosCall::FOpen => true,
        MosCall::FOpendir => true,
        MosCall::FRead => true,
        MosCall::FReaddir => true,
        MosCall::FWrite => true,
        _ => false,
    }
}

pub fn is_handled(call: MosCall) -> (handled: bool)
    ensures
        handled == is_handled_spec(call),
{
    match call {
        MosCall::FChdir => true,
        MosCall::FClose => true,
        MosCall::FClosedir => true,
        MosCall::FGetlabel => true,
        MosCall::FGets => true,
        MosCall::FMount => true,
        MosCall::FOpen => true,
        MosCall::FOpendir => true,
        MosCall::FRead => true,
        MosCall::FReaddir => true,
        MosCall::FWrite => true,
        _ => false,
    }
}

} // verus!
