use stlink_probe::commands::JTagFrequencyToDivider;
use stlink_probe::commands::SwdFrequencyToDelayCount;
use stlink_probe::protocol::WireProtocol;
use stlink_probe::stlink::check_status;
use stlink_probe::stlink::check_transfer_status;
use stlink_probe::stlink::compute_voltage;
use stlink_probe::stlink::STLink;
use stlink_probe::stlink::STLinkError;
use stlink_probe::stlink::MIN_JTAG_VERSION;
use stlink_probe::stlink::MIN_JTAG_VERSION_16BIT_XFER;
use stlink_probe::stlink::MIN_JTAG_VERSION_MULTI_AP;
use stlink_probe::usb_interface::ScriptedTransport;
use stlink_probe::usb_interface::TransportError;

fn probe_with(script: Vec<Result<Vec<u8>, TransportError>>) -> STLink<ScriptedTransport> {
    STLink::new(ScriptedTransport::new(script))
}

/// A 12-byte version-query response packing the hardware version into bits
/// 15:12 and the protocol version into bits 11:6 of the leading word.
fn version_response(hw: u16, jtag: u16) -> Vec<u8> {
    let word = (hw << 12) | (jtag << 6);
    let mut r = vec![(word & 0xff) as u8, (word >> 8) as u8];
    r.resize(12, 0);
    r
}

/// A 12-byte last-transfer-status response: 16-bit status code in bytes
/// 0..2, 32-bit fault address in bytes 4..8.
fn status_response(status: u16, fault_address: u32) -> Vec<u8> {
    vec![
        (status & 0xff) as u8,
        (status >> 8) as u8,
        0,
        0,
        (fault_address & 0xff) as u8,
        ((fault_address >> 8) & 0xff) as u8,
        ((fault_address >> 16) & 0xff) as u8,
        ((fault_address >> 24) & 0xff) as u8,
        0,
        0,
        0,
        0,
    ]
}

#[test]
fn new_probe_starts_unversioned() {
    let probe = probe_with(vec![]);
    assert_eq!(probe.hw_version, 0);
    assert_eq!(probe.jtag_version, 0);
    assert_eq!(probe.protocol, WireProtocol::Swd);
}

#[test]
fn unaligned_read32_rejected_before_any_transport_call() {
    let mut probe = probe_with(vec![]);
    let r = probe.read_mem32(0x2001, 4, 0);
    assert!(matches!(r, Err(STLinkError::DataAlignmentError)));
    assert_eq!(probe.device.write_count(), 0);

    let r = probe.read_mem32(0x2000, 5, 0);
    assert!(matches!(r, Err(STLinkError::DataAlignmentError)));
    assert_eq!(probe.device.write_count(), 0);
}

#[test]
fn unaligned_write32_rejected_before_any_transport_call() {
    let mut probe = probe_with(vec![]);
    let r = probe.write_mem32(0x2002, vec![0; 4], 0);
    assert!(matches!(r, Err(STLinkError::DataAlignmentError)));
    let r = probe.write_mem32(0x2000, vec![0; 3], 0);
    assert!(matches!(r, Err(STLinkError::DataAlignmentError)));
    assert_eq!(probe.device.write_count(), 0);
}

#[test]
fn unaligned_read16_rejected_before_any_transport_call() {
    let mut probe = probe_with(vec![]);
    probe.jtag_version = MIN_JTAG_VERSION_16BIT_XFER;
    let r = probe.read_mem16(0x2001, 2, 0);
    assert!(matches!(r, Err(STLinkError::DataAlignmentError)));
    let r = probe.read_mem16(0x2000, 3, 0);
    assert!(matches!(r, Err(STLinkError::DataAlignmentError)));
    assert_eq!(probe.device.write_count(), 0);
}

#[test]
fn read16_requires_capable_firmware() {
    let mut probe = probe_with(vec![]);
    probe.jtag_version = MIN_JTAG_VERSION_16BIT_XFER - 1;
    let r = probe.read_mem16(0x2000, 2, 0);
    assert!(matches!(r, Err(STLinkError::Access16BitNotSupported)));
    let r = probe.write_mem16(0x2000, vec![0; 2], 0);
    assert!(matches!(r, Err(STLinkError::Access16BitNotSupported)));
    assert_eq!(probe.device.write_count(), 0);
}

#[test]
fn exact_maximum_chunk_is_a_single_chunk() {
    let mut probe = probe_with(vec![]);
    let data = probe.read_mem8(0x1000, 1024, 0).unwrap();
    assert_eq!(data.len(), 1024);
    // One memory command and one status query.
    assert_eq!(probe.device.write_count(), 2);
}

#[test]
fn one_byte_past_maximum_makes_two_chunks() {
    let mut probe = probe_with(vec![]);
    let data = probe.read_mem8(0x1000, 1025, 0).unwrap();
    assert_eq!(data.len(), 1025);
    // Two memory commands, each followed by a status query.
    assert_eq!(probe.device.write_count(), 4);

    // The second chunk starts 1024 bytes past the base address and carries
    // the single remaining byte.
    let second = &probe.device.frames[2];
    assert_eq!(&second[2..6], &[0x00, 0x14, 0x00, 0x00]);
    assert_eq!(&second[6..8], &[0x01, 0x00]);
}

#[test]
fn write_chunks_split_like_reads() {
    let mut probe = probe_with(vec![]);
    let data = vec![0xa5; 1025];
    probe.write_mem8(0x1000, data, 3).unwrap();
    assert_eq!(probe.device.write_count(), 4);
    // The data phases of the two memory commands carry 1024 and 1 bytes.
    assert_eq!(probe.device.data_phases[0].len(), 1024);
    assert_eq!(probe.device.data_phases[2].len(), 1);
    // The access-port selector rides in byte 8 of the command.
    assert_eq!(probe.device.frames[0][8], 3);
}

#[test]
fn version_zero_fails_without_extended_query() {
    let mut probe = probe_with(vec![Ok(version_response(2, 0))]);
    let r = probe.get_version();
    assert!(matches!(r, Err(STLinkError::JTAGNotSupportedOnProbe)));
    assert_eq!(probe.device.write_count(), 1);
}

#[test]
fn outdated_firmware_is_rejected() {
    let mut probe = probe_with(vec![Ok(version_response(2, (MIN_JTAG_VERSION - 1) as u16))]);
    let r = probe.get_version();
    assert!(matches!(r, Err(STLinkError::ProbeFirmwareOutdated)));
}

#[test]
fn version_accepted_at_minimum() {
    let mut probe = probe_with(vec![Ok(version_response(2, MIN_JTAG_VERSION as u16))]);
    probe.get_version().unwrap();
    assert_eq!(probe.hw_version, 2);
    assert_eq!(probe.jtag_version, MIN_JTAG_VERSION);
    assert_eq!(probe.device.write_count(), 1);
}

#[test]
fn extended_version_query_overrides_packed_version() {
    // Hardware version 3 triggers exactly one extended query after the base
    // query; the packed value (30) loses against the 32-bit value (42).
    let mut ext = vec![42, 0, 0, 0];
    ext.resize(12, 0);
    let mut probe = probe_with(vec![Ok(version_response(3, 30)), Ok(ext)]);
    probe.get_version().unwrap();
    assert_eq!(probe.device.write_count(), 2);
    assert_eq!(probe.hw_version, 3);
    assert_eq!(probe.jtag_version, 42);
}

#[test]
fn transport_errors_surface_as_usb_errors() {
    let mut probe = probe_with(vec![Err(TransportError::Timeout)]);
    let r = probe.get_version();
    assert_eq!(r, Err(STLinkError::USB(TransportError::Timeout)));
}

#[test]
fn voltage_division_by_zero() {
    // reading0 in bytes 0..4 is zero.
    let mut probe = probe_with(vec![Ok(vec![0; 8])]);
    let r = probe.get_target_voltage();
    assert_eq!(r, Err(STLinkError::VoltageDivisionByZero));
}

#[test]
fn voltage_uses_three_byte_window_at_offset_five() {
    // reading0 = 1200 in bytes 0..4; reading1 = 1200 in bytes 5..8; the
    // byte at offset 4 does not take part.
    let resp = vec![0xb0, 0x04, 0, 0, 0xff, 0xb0, 0x04, 0];
    let mut probe = probe_with(vec![Ok(resp)]);
    // 2 * 1.2 * 1200 / 1200 = 2.4, truncated to 2.
    assert_eq!(probe.get_target_voltage().unwrap(), 2);
}

#[test]
fn compute_voltage_exact() {
    assert_eq!(compute_voltage(1200, 1200), Ok(2));
    assert_eq!(compute_voltage(1, 1), Ok(2));
    assert_eq!(compute_voltage(3, 5), Ok(4));
    assert_eq!(compute_voltage(0, 5), Err(STLinkError::VoltageDivisionByZero));
}

#[test]
fn enter_idle_leaves_known_modes() {
    // DFU mode: the exit command is the DFU one.
    let mut probe = probe_with(vec![Ok(vec![0x00, 0])]);
    probe.enter_idle().unwrap();
    assert_eq!(probe.device.write_count(), 2);
    assert_eq!(&probe.device.frames[1][..2], &[0xf3, 0x07]);

    // JTAG mode.
    let mut probe = probe_with(vec![Ok(vec![0x02, 0])]);
    probe.enter_idle().unwrap();
    assert_eq!(&probe.device.frames[1][..2], &[0xf2, 0x21]);

    // SWIM mode.
    let mut probe = probe_with(vec![Ok(vec![0x03, 0])]);
    probe.enter_idle().unwrap();
    assert_eq!(&probe.device.frames[1][..2], &[0xf4, 0x01]);
}

#[test]
fn enter_idle_rejects_unknown_mode() {
    let mut probe = probe_with(vec![Ok(vec![0x07, 0])]);
    let r = probe.enter_idle();
    assert_eq!(r, Err(STLinkError::UnknownMode));
    assert_eq!(probe.device.write_count(), 1);
}

#[test]
fn enter_debug_records_protocol_only_on_success() {
    // Mode query says DFU, exit succeeds, mode entry reports OK.
    let ok = vec![0x80, 0];
    let mut probe = probe_with(vec![Ok(vec![0x00, 0]), Ok(vec![]), Ok(ok)]);
    probe.enter_debug(WireProtocol::Jtag).unwrap();
    assert_eq!(probe.protocol, WireProtocol::Jtag);

    // A failed mode entry leaves the recorded protocol untouched.
    let mut probe = probe_with(vec![Ok(vec![0x00, 0]), Ok(vec![]), Ok(vec![0x09, 0])]);
    let r = probe.enter_debug(WireProtocol::Jtag);
    assert_eq!(r, Err(STLinkError::UnknownError));
    assert_eq!(probe.protocol, WireProtocol::Swd);
}

#[test]
fn open_ap_requires_multi_ap_firmware() {
    let mut probe = probe_with(vec![]);
    probe.jtag_version = MIN_JTAG_VERSION_MULTI_AP - 1;
    let r = probe.open_ap(0);
    assert_eq!(r, Err(STLinkError::JTagDoesNotSupportMultipleAP));
    assert_eq!(probe.device.write_count(), 0);
}

#[test]
fn close_ap_requires_multi_ap_firmware() {
    let mut probe = probe_with(vec![]);
    probe.jtag_version = MIN_JTAG_VERSION_MULTI_AP - 1;
    let r = probe.close_ap(0);
    assert_eq!(r, Err(STLinkError::JTagDoesNotSupportMultipleAP));
    assert_eq!(probe.device.write_count(), 0);
}

#[test]
fn ap_lifecycle_on_capable_firmware() {
    let ok = vec![0x80u8, 0];
    let mut probe = probe_with(vec![Ok(ok.clone()), Ok(ok)]);
    probe.jtag_version = MIN_JTAG_VERSION_MULTI_AP;
    probe.open_ap(5).unwrap();
    probe.close_ap(5).unwrap();
    assert_eq!(probe.device.write_count(), 2);
    assert_eq!(&probe.device.frames[0][..4], &[0xf2, 0x4b, 5, 0]);
    assert_eq!(&probe.device.frames[1][..3], &[0xf2, 0x4c, 5]);
}

#[test]
fn reset_commands_are_distinct() {
    let ok = vec![0x80u8, 0];
    let mut probe = probe_with(vec![Ok(ok.clone()), Ok(ok.clone()), Ok(ok)]);
    probe.target_reset().unwrap();
    probe.drive_nreset(true).unwrap();
    probe.drive_nreset(false).unwrap();
    assert_eq!(&probe.device.frames[0][..3], &[0xf2, 0x3c, 0x02]);
    assert_eq!(&probe.device.frames[1][..3], &[0xf2, 0x3c, 0x00]);
    assert_eq!(&probe.device.frames[2][..3], &[0xf2, 0x3c, 0x01]);
}

#[test]
fn transfer_fault_far_past_chunk_clips_completed_count() {
    // Chunk at 0x1000 of size 256; access-port fault reported at 0x2000.
    // 256 - (0x2000 - 0x1000) is negative, so the completed count clips to
    // zero.
    let mut probe = probe_with(vec![Ok(vec![]), Ok(status_response(0x0011, 0x2000))]);
    let r = probe.read_mem8(0x1000, 256, 0);
    assert_eq!(r, Err(STLinkError::TransferFault(0x2000, 0)));
}

#[test]
fn transfer_fault_inside_chunk_counts_completed_bytes() {
    // Fault at 0x1040 inside a 256-byte chunk at 0x1000: 256 - 0x40 = 192
    // bytes completed.
    let mut probe = probe_with(vec![Ok(vec![]), Ok(status_response(0x0011, 0x1040))]);
    let r = probe.read_mem8(0x1000, 256, 0);
    assert_eq!(r, Err(STLinkError::TransferFault(0x1040, 192)));
}

#[test]
fn fault_statuses_and_ok_anomaly() {
    // Unknown-error, AP-fault and DP-fault codes all fault the transfer.
    for code in [0x0001u16, 0x0011, 0x0015] {
        let r = check_transfer_status(code, 0x30, 0x10, 0x40);
        assert_eq!(r, Err(STLinkError::TransferFault(0x30, 0x20)));
    }
    // An OK status on the error-check path is an anomaly.
    assert_eq!(check_transfer_status(0x0080, 0, 0, 0), Err(STLinkError::UnknownError));
    // Any other status lets the transfer continue.
    assert_eq!(check_transfer_status(0x0000, 0, 0, 0), Ok(()));
    assert_eq!(check_transfer_status(0x0042, 0, 0, 0), Ok(()));
}

#[test]
fn ok_status_during_transfer_is_reported_as_unknown_error() {
    let mut probe = probe_with(vec![Ok(vec![]), Ok(status_response(0x0080, 0))]);
    let r = probe.read_mem8(0x1000, 4, 0);
    assert_eq!(r, Err(STLinkError::UnknownError));
}

#[test]
fn write_fault_fails_at_faulting_chunk() {
    // First chunk passes (status 0), second chunk faults: the write stops
    // after the fourth transport call.
    let mut probe = probe_with(vec![
        Ok(vec![]),
        Ok(status_response(0, 0)),
        Ok(vec![]),
        Ok(status_response(0x0015, 0x1400)),
    ]);
    let r = probe.write_mem8(0x1000, vec![1; 1025], 0);
    assert_eq!(r, Err(STLinkError::TransferFault(0x1400, 1)));
    assert_eq!(probe.device.write_count(), 4);
}

#[test]
fn check_status_accepts_only_ok() {
    assert_eq!(check_status(&[0x80, 0]), Ok(()));
    assert_eq!(check_status(&[0x09, 0]), Err(STLinkError::UnknownError));
    assert_eq!(check_status(&[0x00]), Err(STLinkError::UnknownError));
}

#[test]
fn dap_register_addressing_rules() {
    let mut probe = probe_with(vec![]);
    // Port 0xffff addresses the debug port; a non-zero low nibble is not
    // allowed there.
    let r = probe.read_dap_register(0xffff, 0x01);
    assert_eq!(r, Err(STLinkError::BlanksNotAllowedOnDPRegister));
    let r = probe.write_dap_register(0xffff, 0x01, 1);
    assert_eq!(r, Err(STLinkError::BlanksNotAllowedOnDPRegister));
    // Register addresses must fit in 16 bits.
    let r = probe.read_dap_register(0, 0x10000);
    assert_eq!(r, Err(STLinkError::RegisterAddressMustBe16Bit));
    let r = probe.write_dap_register(0, 0x10000, 1);
    assert_eq!(r, Err(STLinkError::RegisterAddressMustBe16Bit));
    // On the debug port a zero low nibble passes the addressing rule, so a
    // too-wide address fails on width, not on the nibble rule.
    let r = probe.read_dap_register(0xffff, 0x10030);
    assert_eq!(r, Err(STLinkError::RegisterAddressMustBe16Bit));
    let r = probe.write_dap_register(0xffff, 0x10030, 1);
    assert_eq!(r, Err(STLinkError::RegisterAddressMustBe16Bit));
    assert_eq!(probe.device.write_count(), 0);
}

#[test]
fn dap_register_read_decodes_value() {
    // The status check reads byte 0, and the value is decoded from bytes
    // 0..4 of the same response.
    let resp = vec![0x80, 0x01, 0x02, 0x03, 0, 0, 0, 0];
    let mut probe = probe_with(vec![Ok(resp)]);
    let v = probe.read_dap_register(0, 0x04).unwrap();
    assert_eq!(v, 0x03020180);
    assert_eq!(&probe.device.frames[0][..6], &[0xf2, 0x45, 0x00, 0x00, 0x04, 0x00]);
}

#[test]
fn dap_register_write_encodes_fields() {
    let ok = vec![0x80u8, 0, 0, 0, 0, 0, 0, 0];
    let mut probe = probe_with(vec![Ok(ok)]);
    probe.write_dap_register(0xffff, 0x10, 0xdeadbeef).unwrap();
    assert_eq!(
        &probe.device.frames[0][..10],
        &[0xf2, 0x46, 0xff, 0xff, 0x10, 0x00, 0xef, 0xbe, 0xad, 0xde]
    );
}

#[test]
fn swd_frequency_table_selection() {
    assert_eq!(SwdFrequencyToDelayCount::for_hz(4_600_000), SwdFrequencyToDelayCount::Hz4600000);
    assert_eq!(SwdFrequencyToDelayCount::for_hz(5_000_000), SwdFrequencyToDelayCount::Hz4600000);
    assert_eq!(SwdFrequencyToDelayCount::for_hz(1_799_999), SwdFrequencyToDelayCount::Hz1200000);
    assert_eq!(SwdFrequencyToDelayCount::for_hz(100_000), SwdFrequencyToDelayCount::Hz100000);
    assert_eq!(SwdFrequencyToDelayCount::for_hz(1), SwdFrequencyToDelayCount::Hz100000);
    assert_eq!(SwdFrequencyToDelayCount::Hz4600000.delay_count(), 0);
    assert_eq!(SwdFrequencyToDelayCount::Hz100000.delay_count(), 40);
}

#[test]
fn jtag_frequency_table_selection() {
    assert_eq!(JTagFrequencyToDivider::for_hz(20_000_000), JTagFrequencyToDivider::Hz18000000);
    assert_eq!(JTagFrequencyToDivider::for_hz(9_000_000), JTagFrequencyToDivider::Hz9000000);
    assert_eq!(JTagFrequencyToDivider::for_hz(1), JTagFrequencyToDivider::Hz280000);
    assert_eq!(JTagFrequencyToDivider::Hz18000000.divider(), 2);
    assert_eq!(JTagFrequencyToDivider::Hz280000.divider(), 128);
}

#[test]
fn set_frequency_commands() {
    let ok = vec![0x80u8, 0];
    let mut probe = probe_with(vec![Ok(ok.clone()), Ok(ok)]);
    probe.set_swd_frequency(SwdFrequencyToDelayCount::Hz1800000).unwrap();
    probe.set_jtag_frequency(JTagFrequencyToDivider::Hz9000000).unwrap();
    assert_eq!(&probe.device.frames[0][..3], &[0xf2, 0x43, 1]);
    assert_eq!(&probe.device.frames[1][..3], &[0xf2, 0x44, 4]);
}

#[test]
fn set_wire_frequency_picks_table_entry() {
    let ok = vec![0x80u8, 0];
    let mut probe = probe_with(vec![Ok(ok.clone()), Ok(ok)]);
    probe.set_wire_frequency(2_000_000, WireProtocol::Swd).unwrap();
    probe.set_wire_frequency(10_000_000, WireProtocol::Jtag).unwrap();
    // 2 MHz requested over SWD selects the 1.8 MHz entry (delay 1); 10 MHz
    // over JTAG selects the 9 MHz entry (divider 4).
    assert_eq!(&probe.device.frames[0][..3], &[0xf2, 0x43, 1]);
    assert_eq!(&probe.device.frames[1][..3], &[0xf2, 0x44, 4]);
}

#[test]
fn open_runs_full_negotiation() {
    let mut probe = probe_with(vec![
        Ok(vec![0x02, 0]),                          // current mode: JTAG
        Ok(vec![]),                                 // mode exit
        Ok(version_response(2, 30)),                // version query
        Ok(vec![0xb0, 0x04, 0, 0, 0, 0xb0, 0x04, 0]), // target voltage
    ]);
    probe.open().unwrap();
    assert_eq!(probe.jtag_version, 30);
    assert_eq!(probe.device.write_count(), 4);
}

#[test]
fn close_returns_probe_to_idle() {
    let mut probe = probe_with(vec![Ok(vec![0x02, 0]), Ok(vec![])]);
    probe.close();
    assert_eq!(probe.device.write_count(), 2);
    assert_eq!(&probe.device.frames[1][..2], &[0xf2, 0x21]);
}

#[test]
fn clear_sticky_error_is_a_stub() {
    let mut probe = probe_with(vec![]);
    assert_eq!(probe.clear_sticky_error(), Ok(()));
    assert_eq!(probe.device.write_count(), 0);
}
