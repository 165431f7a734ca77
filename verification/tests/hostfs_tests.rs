use agon_core::agon_machine::AgonMachine;
use agon_core::environment::Environment;
use agon_core::hostfs::{DirEvent, HostFs, HostIoError, HostRead, PathStatus, gets_terminator,
    open_path};
use agon_core::registers::Reg16;
use agon_core::state::State;
use agon_core::z80_mem_tools::get_cstring;

const SP0: u32 = 0x8FF00;
const RET: u32 = 0x45678;

/// An environment the way a trapped firmware call finds it: long mode, the
/// caller's return address on the stack, arguments above it.
fn trap_env(args: &[u32]) -> Environment<AgonMachine> {
    let mut st = State::new();
    st.op_long = true;
    st.reg.set24(Reg16::SP, SP0);
    let mut env = Environment::new(st, AgonMachine::new());
    env.poke24(SP0, RET);
    let mut offset = 3;
    for a in args {
        env.poke24(SP0 + offset, *a);
        offset += 3;
    }
    env
}

fn returned(env: &Environment<AgonMachine>) {
    assert_eq!(env.state.pc, RET);
    assert_eq!(env.state.reg.get24(Reg16::SP), SP0 + 3);
}

fn result_code(env: &Environment<AgonMachine>) -> u32 {
    env.state.reg.get24(Reg16::HL)
}

#[test]
fn mount_always_succeeds() {
    let mut env = trap_env(&[]);
    let ok = env.hostfs_mos_f_mount();
    assert!(ok);
    assert_eq!(result_code(&env), 0);
    returned(&env);
}

#[test]
fn getlabel_writes_the_fixed_label() {
    let buf = 0x60000;
    let mut env = trap_env(&[0, buf]);
    let ok = env.hostfs_mos_f_getlabel();
    assert!(ok);
    assert_eq!(result_code(&env), 0);
    returned(&env);
    assert_eq!(get_cstring(&env.sys, buf), b"hostfs".to_vec());
    assert_eq!(env.peek(buf + 6), 0);
}

#[test]
fn open_missing_file_reports_code_4_and_registers_nothing() {
    let fptr = 0x61000;
    let mut env = trap_env(&[fptr, 0x62000, 0]);
    let mut fs = HostFs::new();
    let ok = fs.hostfs_mos_f_open(&mut env, Err(HostIoError::NotFound));
    assert!(ok);
    assert_eq!(result_code(&env), 4);
    assert!(!fs.is_open_file(fptr));
    returned(&env);
}

#[test]
fn open_other_host_failure_reports_code_1() {
    let fptr = 0x61000;
    let mut env = trap_env(&[fptr, 0x62000, 0]);
    let mut fs = HostFs::new();
    fs.hostfs_mos_f_open(&mut env, Err(HostIoError::Other));
    assert_eq!(result_code(&env), 1);
    assert!(!fs.is_open_file(fptr));
}

#[test]
fn open_with_create_flag_on_missing_path_succeeds_and_registers() {
    // the host created the file (mode bit 4 asks for that), so the outcome
    // is a zero-length open file
    let fptr = 0x61000;
    let mut env = trap_env(&[fptr, 0x62000, 4]);
    env.poke(fptr, 0xFF); // stale guest data, must be wiped
    env.poke(fptr + 35, 0xFF);
    let mut fs = HostFs::new();
    let ok = fs.hostfs_mos_f_open(&mut env, Ok(0));
    assert!(ok);
    assert_eq!(result_code(&env), 0);
    assert!(fs.is_open_file(fptr));
    returned(&env);
    // the whole 36-byte structure was zeroed before the size was written
    for i in 0..36 {
        assert_eq!(env.peek(fptr + i), 0);
    }
}

#[test]
fn open_writes_the_size_field_capped_to_the_working_region() {
    let fptr = 0x61000;
    let mut env = trap_env(&[fptr, 0x62000, 0]);
    let mut fs = HostFs::new();
    fs.hostfs_mos_f_open(&mut env, Ok(0x12345));
    assert_eq!(env.peek24(fptr + 11), 0x12345);

    let fptr2 = 0x63000;
    let mut env = trap_env(&[fptr2, 0x62000, 0]);
    fs.hostfs_mos_f_open(&mut env, Ok(0x100000));
    assert_eq!(env.peek24(fptr2 + 11), 0x80000);
}

#[test]
fn close_removes_the_handle_and_names_it() {
    let fptr = 0x61000;
    let mut env = trap_env(&[fptr, 0x62000, 0]);
    let mut fs = HostFs::new();
    fs.hostfs_mos_f_open(&mut env, Ok(10));
    assert!(fs.is_open_file(fptr));

    let mut env = trap_env(&[fptr]);
    let (closed, ok) = fs.hostfs_mos_f_close(&mut env);
    assert!(ok);
    assert_eq!(closed, fptr);
    assert_eq!(result_code(&env), 0);
    assert!(!fs.is_open_file(fptr));
    returned(&env);
}

#[test]
fn read_copies_host_bytes_and_updates_the_position_field() {
    let fptr = 0x61000;
    let buf = 0x64000;
    let mut env = trap_env(&[fptr, buf, 4]);
    let mut fs = HostFs::new();
    fs.hostfs_mos_f_open(&mut env, Ok(100));

    let mut env2 = trap_env(&[fptr, buf, 4]);
    let ok = fs.hostfs_mos_f_read(
        &mut env2,
        Some(HostRead { data: vec![9, 8, 7, 6], fpos: 4 }),
    );
    assert!(ok);
    assert_eq!(result_code(&env2), 0);
    assert_eq!(env2.peek(buf), 9);
    assert_eq!(env2.peek(buf + 3), 6);
    assert_eq!(env2.peek24(fptr + 17), 4);
    returned(&env2);
}

#[test]
fn read_with_unknown_handle_reports_code_1() {
    let mut env = trap_env(&[0x61000, 0x64000, 4]);
    let mut fs = HostFs::new();
    let ok = fs.hostfs_mos_f_read(&mut env, None);
    assert!(ok);
    assert_eq!(result_code(&env), 1);
    returned(&env);
}

#[test]
fn write_reports_the_full_requested_count() {
    // the reported written count always equals the requested count, and the
    // out-pointer slot is the count slot itself, so the count lands at the
    // address equal to its own value
    let fptr = 0x61000;
    let buf = 0x64000;
    let num = 0x65000;
    let mut env = trap_env(&[fptr, buf, num]);
    let mut fs = HostFs::new();
    fs.hostfs_mos_f_open(&mut env, Ok(0));

    let mut env2 = trap_env(&[fptr, buf, num]);
    let ok = fs.hostfs_mos_f_write(&mut env2, Some(num as u64));
    assert!(ok);
    assert_eq!(result_code(&env2), 0);
    assert_eq!(env2.peek24(num), num);
    assert_eq!(env2.peek24(fptr + 17), num);
    returned(&env2);
}

#[test]
fn write_more_than_the_declared_size_still_reports_the_count() {
    // writing more bytes than the declared maximum file size must not fail:
    // the count is reported in full whatever the host did with the bytes
    let fptr = 0x61000;
    let num = 0xA0000; // larger than the declared 512 KiB maximum
    let mut env = trap_env(&[fptr, 0x64000, num]);
    let mut fs = HostFs::new();
    fs.hostfs_mos_f_open(&mut env, Ok(0));

    let mut env2 = trap_env(&[fptr, 0x64000, num]);
    let ok = fs.hostfs_mos_f_write(&mut env2, Some(num as u64));
    assert!(ok);
    assert_eq!(result_code(&env2), 0);
    assert_eq!(env2.peek24(num), num);
}

#[test]
fn write_with_unknown_handle_reports_code_1() {
    let mut env = trap_env(&[0x61000, 0x64000, 8]);
    let mut fs = HostFs::new();
    let ok = fs.hostfs_mos_f_write(&mut env, None);
    assert!(ok);
    assert_eq!(result_code(&env), 1);
}

#[test]
fn gets_writes_the_line_and_a_nul() {
    let fptr = 0x61000;
    let buf = 0x64000;
    let mut env = trap_env(&[buf, 16, fptr]);
    let mut fs = HostFs::new();
    fs.hostfs_mos_f_open(&mut env, Ok(100));

    let mut env2 = trap_env(&[buf, 16, fptr]);
    let line = vec![b'h', b'i', 10];
    let ok = fs.hostfs_mos_f_gets(&mut env2, Some(HostRead { data: line, fpos: 3 }));
    assert!(ok);
    assert_eq!(result_code(&env2), 0);
    assert_eq!(env2.peek(buf), b'h');
    assert_eq!(env2.peek(buf + 1), b'i');
    assert_eq!(env2.peek(buf + 2), 10);
    assert_eq!(env2.peek(buf + 3), 0);
    assert_eq!(env2.peek24(fptr + 17), 3);
}

#[test]
fn gets_terminator_stops_on_newline_and_nul() {
    assert!(gets_terminator(10));
    assert!(gets_terminator(0));
    assert!(!gets_terminator(b'a'));
    assert!(!gets_terminator(13));
}

#[test]
fn opendir_registers_only_on_success() {
    let dp = 0x66000;
    let mut env = trap_env(&[dp, 0x62000]);
    let mut fs = HostFs::new();
    let ok = fs.hostfs_mos_f_opendir(&mut env, Err(HostIoError::NotFound));
    assert!(ok);
    assert_eq!(result_code(&env), 4);
    assert!(!fs.is_open_dir(dp));

    let mut env = trap_env(&[dp, 0x62000]);
    fs.hostfs_mos_f_opendir(&mut env, Ok(()));
    assert_eq!(result_code(&env), 0);
    assert!(fs.is_open_dir(dp));

    let mut env = trap_env(&[dp]);
    let (closed, _) = fs.hostfs_mos_f_closedir(&mut env);
    assert_eq!(closed, dp);
    assert!(!fs.is_open_dir(dp));
}

fn readdir_name(env: &Environment<AgonMachine>, fi: u32) -> Vec<u8> {
    get_cstring(&env.sys, fi + 22)
}

#[test]
fn readdir_yields_three_names_then_stays_empty() {
    let dp = 0x66000;
    let fi = 0x67000;
    let mut fs = HostFs::new();
    let mut env = trap_env(&[dp, fi]);
    fs.hostfs_mos_f_opendir(&mut env, Ok(()));

    let mut names: Vec<Vec<u8>> = Vec::new();
    for entry in [&b"alpha"[..], &b"beta"[..], &b"gamma"[..]] {
        let mut env = trap_env(&[dp, fi]);
        let ok = fs.hostfs_mos_f_readdir(
            &mut env,
            Some(DirEvent::Entry { name: entry.to_vec(), size: 1, is_dir: false }),
        );
        assert!(ok);
        assert_eq!(result_code(&env), 0);
        let name = readdir_name(&env, fi);
        assert!(!name.is_empty());
        assert!(!names.contains(&name));
        names.push(name);
    }
    assert_eq!(names.len(), 3);

    // the fourth and the fifth advance both report success with an empty
    // name: the end of the sequence is idempotent
    for _ in 0..2 {
        let mut env = trap_env(&[dp, fi]);
        let ok = fs.hostfs_mos_f_readdir(&mut env, Some(DirEvent::End));
        assert!(ok);
        assert_eq!(result_code(&env), 0);
        assert!(readdir_name(&env, fi).is_empty());
    }
}

#[test]
fn readdir_writes_size_and_directory_attribute() {
    let dp = 0x66000;
    let fi = 0x67000;
    let mut fs = HostFs::new();
    let mut env = trap_env(&[dp, fi]);
    fs.hostfs_mos_f_opendir(&mut env, Ok(()));

    let mut env = trap_env(&[dp, fi]);
    fs.hostfs_mos_f_readdir(
        &mut env,
        Some(DirEvent::Entry { name: b"sub".to_vec(), size: 0xAB123456, is_dir: true }),
    );
    assert_eq!(result_code(&env), 0);
    // the 32-bit size stands as four little-endian bytes
    assert_eq!(env.peek(fi), 0x56);
    assert_eq!(env.peek(fi + 1), 0x34);
    assert_eq!(env.peek(fi + 2), 0x12);
    assert_eq!(env.peek(fi + 3), 0xAB);
    // the directory attribute bit
    assert_eq!(env.peek(fi + 8), 0x10);
    assert_eq!(readdir_name(&env, fi), b"sub".to_vec());
}

#[test]
fn readdir_metadata_trouble_substitutes_a_sentinel_name() {
    let dp = 0x66000;
    let fi = 0x67000;
    let mut fs = HostFs::new();
    let mut env = trap_env(&[dp, fi]);
    fs.hostfs_mos_f_opendir(&mut env, Ok(()));

    let mut env = trap_env(&[dp, fi]);
    let ok = fs.hostfs_mos_f_readdir(&mut env, Some(DirEvent::MetaError));
    assert!(ok);
    assert_eq!(result_code(&env), 0);
    assert_eq!(readdir_name(&env, fi), b"<error reading file metadata>".to_vec());
}

#[test]
fn readdir_unknown_handle_reports_code_1_with_a_zeroed_struct() {
    let fi = 0x67000;
    let mut fs = HostFs::new();
    let mut env = trap_env(&[0x66000, fi]);
    env.poke(fi + 100, 0x33); // stale guest data
    let ok = fs.hostfs_mos_f_readdir(&mut env, None);
    assert!(ok);
    assert_eq!(result_code(&env), 1);
    assert_eq!(env.peek(fi + 100), 0);
}

#[test]
fn readdir_iterator_failure_reports_code_1() {
    let dp = 0x66000;
    let mut fs = HostFs::new();
    let mut env = trap_env(&[dp, 0x67000]);
    fs.hostfs_mos_f_opendir(&mut env, Ok(()));
    let mut env = trap_env(&[dp, 0x67000]);
    fs.hostfs_mos_f_readdir(&mut env, Some(DirEvent::IterError));
    assert_eq!(result_code(&env), 1);
}

fn poke_cstring(env: &mut Environment<AgonMachine>, addr: u32, s: &[u8]) {
    let mut a = addr;
    for b in s {
        env.poke(a, *b);
        a += 1;
    }
    env.poke(a, 0);
}

#[test]
fn chdir_joins_a_segment_and_dotdot_pops_it() {
    let path = 0x62000;
    let mut fs = HostFs::new();

    let mut env = trap_env(&[path]);
    poke_cstring(&mut env, path, b"games");
    let ok = fs.hostfs_mos_f_chdir(&mut env, PathStatus::Dir);
    assert!(ok);
    assert_eq!(result_code(&env), 0);
    assert_eq!(fs.hostfs_current_dir, vec![b"games".to_vec()]);

    let mut env = trap_env(&[path]);
    poke_cstring(&mut env, path, b"sub");
    fs.hostfs_mos_f_chdir(&mut env, PathStatus::Dir);
    assert_eq!(fs.hostfs_current_dir, vec![b"games".to_vec(), b"sub".to_vec()]);

    // ".." removes exactly the last segment
    let mut env = trap_env(&[path]);
    poke_cstring(&mut env, path, b"..");
    fs.hostfs_mos_f_chdir(&mut env, PathStatus::Dir);
    assert_eq!(fs.hostfs_current_dir, vec![b"games".to_vec()]);
}

#[test]
fn chdir_from_the_root_stays_at_the_root() {
    let path = 0x62000;
    let mut fs = HostFs::new();
    let mut env = trap_env(&[path]);
    poke_cstring(&mut env, path, b"..");
    fs.hostfs_mos_f_chdir(&mut env, PathStatus::Dir);
    assert!(fs.hostfs_current_dir.is_empty());
}

#[test]
fn chdir_to_a_missing_path_reports_4_and_keeps_the_directory() {
    let path = 0x62000;
    let mut fs = HostFs::new();
    let mut env = trap_env(&[path]);
    poke_cstring(&mut env, path, b"games");
    fs.hostfs_mos_f_chdir(&mut env, PathStatus::Dir);

    let mut env = trap_env(&[path]);
    poke_cstring(&mut env, path, b"nosuch");
    let ok = fs.hostfs_mos_f_chdir(&mut env, PathStatus::NotFound);
    assert!(ok);
    assert_eq!(result_code(&env), 4);
    assert_eq!(fs.hostfs_current_dir, vec![b"games".to_vec()]);
    returned(&env);
}

#[test]
fn chdir_to_a_file_reports_1_and_keeps_the_directory() {
    let path = 0x62000;
    let mut fs = HostFs::new();
    let mut env = trap_env(&[path]);
    poke_cstring(&mut env, path, b"notes.txt");
    let ok = fs.hostfs_mos_f_chdir(&mut env, PathStatus::NotDir);
    assert!(ok);
    assert_eq!(result_code(&env), 1);
    assert!(fs.hostfs_current_dir.is_empty());
}

#[test]
fn chdir_candidate_matches_the_committed_directory() {
    let path = 0x62000;
    let mut fs = HostFs::new();
    let mut env = trap_env(&[path]);
    poke_cstring(&mut env, path, b"games");
    fs.hostfs_mos_f_chdir(&mut env, PathStatus::Dir);

    // the candidate for a join and for ".." is what a committed chdir
    // would make the current directory
    assert_eq!(
        fs.chdir_candidate(&b"sub".to_vec()),
        vec![b"games".to_vec(), b"sub".to_vec()],
    );
    assert_eq!(fs.chdir_candidate(&b"..".to_vec()), Vec::<Vec<u8>>::new());
}

#[test]
fn open_path_strips_the_separator_and_trims() {
    let p = open_path(&b"/games/demo.bin".to_vec());
    assert!(p.absolute);
    assert_eq!(p.name, b"games/demo.bin".to_vec());

    let p = open_path(&b"demo.bin \r\n".to_vec());
    assert!(!p.absolute);
    assert_eq!(p.name, b"demo.bin".to_vec());

    let p = open_path(&b"/".to_vec());
    assert!(p.absolute);
    assert!(p.name.is_empty());

    let p = open_path(&Vec::new());
    assert!(!p.absolute);
    assert!(p.name.is_empty());
}

#[test]
fn handle_tables_hold_many_handles_independently() {
    let mut fs = HostFs::new();
    for (i, fptr) in [0x61000u32, 0x61100, 0x61200].iter().enumerate() {
        let mut env = trap_env(&[*fptr, 0x62000, 0]);
        fs.hostfs_mos_f_open(&mut env, Ok(i as u64));
    }
    assert!(fs.is_open_file(0x61000));
    assert!(fs.is_open_file(0x61100));
    assert!(fs.is_open_file(0x61200));

    let mut env = trap_env(&[0x61100]);
    fs.hostfs_mos_f_close(&mut env);
    assert!(fs.is_open_file(0x61000));
    assert!(!fs.is_open_file(0x61100));
    assert!(fs.is_open_file(0x61200));
}
