use stlink_probe::usb_interface::pad_command;
use stlink_probe::usb_interface::resolve_endpoints;
use stlink_probe::usb_interface::usb_pid_ep_map;
use stlink_probe::usb_interface::ScriptedTransport;
use stlink_probe::usb_interface::STLinkInfo;
use stlink_probe::usb_interface::Transport;
use stlink_probe::usb_interface::TransportError;
use stlink_probe::usb_interface::CMD_LEN;
use stlink_probe::usb_interface::TIMEOUT_MS;

#[test]
fn list_devices() {}

#[test]
fn padded_frame_is_always_sixteen_bytes() {
    let empty: [u8; 0] = [];
    assert_eq!(pad_command(&empty).len(), CMD_LEN);
    let nine = [0xf2u8, 0x07, 1, 2, 3, 4, 5, 6, 7];
    let padded = pad_command(&nine);
    assert_eq!(padded.len(), CMD_LEN);
    assert_eq!(&padded[..9], &nine[..]);
    assert_eq!(&padded[9..], &[0u8; 7][..]);
    let full = [7u8; 16];
    assert_eq!(pad_command(&full), full.to_vec());
}

#[test]
fn pid_map_knows_supported_products() {
    let v2 = usb_pid_ep_map(0x3748).unwrap();
    assert_eq!(v2.version_name, "V2");
    assert_eq!((v2.out_ep, v2.in_ep, v2.swv_ep), (0x02, 0x81, 0x83));

    for pid in [0x374b, 0x374a, 0x3742] {
        let v21 = usb_pid_ep_map(pid).unwrap();
        assert_eq!(v21.version_name, "V2-1");
        assert_eq!((v21.out_ep, v21.in_ep, v21.swv_ep), (0x01, 0x81, 0x82));
    }

    for pid in [0x374e, 0x374f, 0x3753] {
        let v3 = usb_pid_ep_map(pid).unwrap();
        assert_eq!(v3.version_name, "V3");
        assert_eq!((v3.out_ep, v3.in_ep, v3.swv_ep), (0x01, 0x81, 0x82));
    }

    assert!(usb_pid_ep_map(0x1234).is_none());
    assert!(usb_pid_ep_map(0x0000).is_none());
}

#[test]
fn endpoint_resolution_needs_all_three_endpoints() {
    // All three expected endpoints present among the descriptor addresses.
    let addrs = vec![0x02, 0x81, 0x83, 0x01];
    assert_eq!(resolve_endpoints(0x3748, &addrs), Ok((0x02, 0x81, 0x83)));
    // The trace endpoint is missing.
    let addrs = vec![0x02, 0x81];
    assert_eq!(resolve_endpoints(0x3748, &addrs), Err(TransportError::NotFound));
    // An unsupported product id resolves nothing, whatever is present.
    let addrs = vec![0x01, 0x81, 0x82];
    assert_eq!(resolve_endpoints(0x1234, &addrs), Err(TransportError::NotFound));
}

#[test]
fn stlink_info_keeps_fields() {
    let info = STLinkInfo::new("V2-1", 0x01, 0x81, 0x82);
    assert_eq!(info.version_name, "V2-1");
    assert_eq!(info.out_ep, 0x01);
    assert_eq!(info.in_ep, 0x81);
    assert_eq!(info.swv_ep, 0x82);
}

#[test]
fn scripted_transport_serves_responses_in_order() {
    let mut t = ScriptedTransport::new(vec![
        Ok(vec![1, 2, 3]),
        Err(TransportError::Io),
        Ok(vec![9]),
    ]);
    let cmd = [0xf1u8];
    let none: [u8; 0] = [];

    // A long response is truncated to the requested read length.
    let r = t.write(&cmd, &none, 2, TIMEOUT_MS).unwrap();
    assert_eq!(r, vec![1, 2]);

    // A scripted error is handed through.
    let r = t.write(&cmd, &none, 4, TIMEOUT_MS);
    assert_eq!(r, Err(TransportError::Io));

    // A short response is zero-extended.
    let r = t.write(&cmd, &none, 3, TIMEOUT_MS).unwrap();
    assert_eq!(r, vec![9, 0, 0]);

    // Past the script, reads succeed with zeroes.
    let r = t.write(&cmd, &none, 2, TIMEOUT_MS).unwrap();
    assert_eq!(r, vec![0, 0]);

    assert_eq!(t.write_count(), 4);
}

#[test]
fn scripted_transport_records_frames_and_data() {
    let mut t = ScriptedTransport::new(vec![]);
    let cmd = [0xf2u8, 0x08];
    let payload = [0xaau8, 0xbb];
    t.write(&cmd, &payload, 0, TIMEOUT_MS).unwrap();

    assert_eq!(t.frames.len(), 1);
    assert_eq!(t.frames[0].len(), CMD_LEN);
    assert_eq!(&t.frames[0][..2], &cmd[..]);
    assert_eq!(&t.frames[0][2..], &[0u8; 14][..]);
    assert_eq!(t.data_phases, vec![vec![0xaa, 0xbb]]);
}
