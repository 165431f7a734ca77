use agon_core::agon_machine::AgonMachine;
use agon_core::machine::Machine;
use agon_core::mos::{MosCall, is_handled, mos_call_at};
use agon_core::z80_mem_tools::{checksum, get_cstring, memcpy_from_z80, memcpy_to_z80, memset,
    peek24_linear, poke24_linear};

#[test]
fn write_then_read_returns_value_in_writable_region() {
    let mut m = AgonMachine::new();
    m.poke(0x40000, 0xAB);
    assert_eq!(m.peek(0x40000), 0xAB);
    m.poke(0xBFFFF, 0x12);
    assert_eq!(m.peek(0xBFFFF), 0x12);
}

#[test]
fn reads_outside_the_region_return_zero_and_writes_are_discarded() {
    let mut m = AgonMachine::new();
    assert_eq!(m.peek(0xC0000), 0);
    assert_eq!(m.peek(0xFFFFFFFF), 0);
    m.poke(0xC0000, 0x77);
    assert_eq!(m.peek(0xC0000), 0);
    // the firmware region cannot be written by guest code
    m.poke(0x00010, 0x77);
    assert_eq!(m.peek(0x00010), 0);
}

#[test]
fn uart_ports_report_status_and_drain_the_buffer() {
    let mut m = AgonMachine::new();
    assert_eq!(m.port_in(0xa2), 0);
    // no byte buffered: not ready, receive reads zero
    assert_eq!(m.port_in(0xc5), 0x40);
    assert_eq!(m.port_in(0xc0), 0);
    // one byte buffered: ready, then drained by one read
    m.feed_rx(0x5A);
    assert!(m.rx_pending());
    assert_eq!(m.port_in(0xc5), 0x41);
    assert_eq!(m.port_in(0xc0), 0x5A);
    assert!(!m.rx_pending());
    assert_eq!(m.port_in(0xc0), 0);
    // a second byte does not displace a buffered one
    m.feed_rx(1);
    m.feed_rx(2);
    assert_eq!(m.port_in(0xc0), 1);
}

#[test]
fn timer_and_unknown_ports_read_zero() {
    let mut m = AgonMachine::new();
    assert_eq!(m.port_in(0x81), 0);
    assert_eq!(m.port_in(0x82), 0);
    assert_eq!(m.port_in(0x1234), 0);
}

#[test]
fn low_timer_port_reads_are_owed_a_delay() {
    let mut m = AgonMachine::new();
    assert_eq!(m.take_sleep_requests(), 0);
    m.port_in(0x81);
    m.port_in(0x82); // the high byte asks for no delay
    m.port_in(0x81);
    assert_eq!(m.take_sleep_requests(), 2);
    // taking the requests resets the count
    assert_eq!(m.take_sleep_requests(), 0);
}

#[test]
fn transmit_port_queues_bytes_in_order() {
    let mut m = AgonMachine::new();
    m.port_out(0xc0, 10);
    m.port_out(0x55, 99); // not the transmit port: dropped
    m.port_out(0xc0, 20);
    assert_eq!(m.tx_queue, vec![10, 20]);
}

#[test]
fn memory_tools_fill_copy_and_extract() {
    let mut m = AgonMachine::new();
    memset(&mut m, 0x50000, 0xEE, 4);
    assert_eq!(m.peek(0x50000), 0xEE);
    assert_eq!(m.peek(0x50003), 0xEE);
    assert_eq!(m.peek(0x50004), 0);

    memcpy_to_z80(&mut m, 0x50010, &[1, 2, 3]);
    assert_eq!(m.peek(0x50010), 1);
    assert_eq!(m.peek(0x50012), 3);

    poke24_linear(&mut m, 0x50020, 0xA1B2C3);
    assert_eq!(peek24_linear(&m, 0x50020), 0xA1B2C3);

    memcpy_to_z80(&mut m, 0x50030, &[0x68, 0x69, 0x00, 0x7A]);
    let s = get_cstring(&m, 0x50030);
    assert_eq!(s, vec![0x68, 0x69]);
}

#[test]
fn memcpy_from_z80_reads_back_what_reads_would_return() {
    let mut m = AgonMachine::new();
    memcpy_to_z80(&mut m, 0x50000, &[5, 6, 7]);
    assert_eq!(memcpy_from_z80(&m, 0x50000, 3), vec![5, 6, 7]);
    // a block reaching past the decoded space reads zeros there
    assert_eq!(memcpy_from_z80(&m, 0xBFFFF, 2), vec![0, 0]);
}

#[test]
fn get_cstring_is_empty_on_a_zero_byte() {
    let m = AgonMachine::new();
    assert_eq!(get_cstring(&m, 0x50000), Vec::<u8>::new());
}

#[test]
fn checksum_of_empty_range_is_zero() {
    let m = AgonMachine::new();
    assert_eq!(checksum(&m, 0x40000, 0), 0);
}

#[test]
fn checksum_xors_24bit_words_with_a_3_byte_stride() {
    let mut m = AgonMachine::new();
    poke24_linear(&mut m, 0x50000, 0x111111);
    poke24_linear(&mut m, 0x50003, 0x222222);
    assert_eq!(checksum(&m, 0x50000, 6), 0x111111 ^ 0x222222);
    // a trailing partial word still contributes one (zero-padded) read
    assert_eq!(checksum(&m, 0x50000, 7), 0x111111 ^ 0x222222 ^ m.peek(0x50006) as u32);
}

#[test]
fn checksum_does_not_depend_on_the_bank() {
    let mut m = AgonMachine::new();
    let bytes = [0x10, 0x32, 0x54, 0x76, 0x98, 0xBA];
    memcpy_to_z80(&mut m, 0x41000, &bytes);
    memcpy_to_z80(&mut m, 0x91000, &bytes);
    assert_eq!(checksum(&m, 0x41000, 6), checksum(&m, 0x91000, 6));
}

#[test]
fn load_firmware_accepts_only_the_pinned_build() {
    let mut m = AgonMachine::new();
    // one 24-bit word whose value is exactly the pinned checksum
    let good = vec![0xD8, 0x02, 0xC1];
    assert!(m.load_firmware(&good));
    assert_eq!(m.peek(0), 0xD8);
    assert_eq!(m.peek(2), 0xC1);

    let mut m = AgonMachine::new();
    let other = vec![0xD8, 0x02, 0xC0];
    assert!(!m.load_firmware(&other));
}

#[test]
fn trap_table_maps_the_pinned_entry_points() {
    assert_eq!(mos_call_at(0x738C), Some(MosCall::FOpen));
    assert_eq!(mos_call_at(0x822B), Some(MosCall::FClose));
    assert_eq!(mos_call_at(0x785E), Some(MosCall::FRead));
    assert_eq!(mos_call_at(0x7C10), Some(MosCall::FWrite));
    assert_eq!(mos_call_at(0x9C91), Some(MosCall::FGets));
    assert_eq!(mos_call_at(0x8A52), Some(MosCall::FOpendir));
    assert_eq!(mos_call_at(0x8B92), Some(MosCall::FReaddir));
    assert_eq!(mos_call_at(0x8B5B), Some(MosCall::FClosedir));
    assert_eq!(mos_call_at(0x82B2), Some(MosCall::FChdir));
    assert_eq!(mos_call_at(0x72F7), Some(MosCall::FMount));
    assert_eq!(mos_call_at(0x9816), Some(MosCall::FGetlabel));
    assert_eq!(mos_call_at(0x0000), None);
    assert_eq!(mos_call_at(0x738D), None);
}

#[test]
fn observed_but_unhandled_calls_fall_through() {
    assert!(is_handled(MosCall::FOpen));
    assert!(is_handled(MosCall::FMount));
    assert!(!is_handled(MosCall::FChdrive));
    assert!(!is_handled(MosCall::FLseek));
    assert!(!is_handled(MosCall::FRename));
    assert!(!is_handled(MosCall::FGetcwd));
}
