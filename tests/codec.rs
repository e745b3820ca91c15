use comet::codec::{decode_header, encode_execute, encode_message, is_complete_frame, is_executor_secret, is_success_status, setting_payload, HEADER_LEN};

#[test]
fn execute_frame_length_and_header() {
    let payload = b"print(1)";
    let f = encode_execute(payload);
    assert_eq!(f.len(), 16 + payload.len());
    assert_eq!(f[0], 0);
    assert_eq!(&f[1..8], &[0u8; 7]);
    assert_eq!(u32::from_le_bytes([f[8], f[9], f[10], f[11]]), payload.len() as u32);
    assert_eq!(&f[12..16], &[0u8; 4]);
    assert_eq!(&f[16..], payload);
}

#[test]
fn execute_frame_round_trips_length() {
    for n in [0usize, 1, 255, 256, 300, 65536, 70000] {
        let payload = vec![7u8; n];
        let f = encode_execute(&payload);
        assert_eq!(f.len(), HEADER_LEN + n);
        assert_eq!(decode_header(&f), Some((0, n as u32)));
        assert!(is_complete_frame(&f));
    }
}

#[test]
fn length_is_little_endian() {
    let f = encode_execute(&vec![1u8; 300]);
    assert_eq!(&f[8..12], &[44, 1, 0, 0]);
}

#[test]
fn other_opcode_is_kept() {
    let f = encode_message(3, b"x");
    assert_eq!(decode_header(&f), Some((3, 1)));
}

#[test]
fn short_input_has_no_header() {
    assert_eq!(decode_header(&[0u8; 15]), None);
    assert!(!is_complete_frame(&[0u8; 3]));
    let mut f = encode_execute(b"abc");
    f.pop();
    assert!(!is_complete_frame(&f));
}

#[test]
fn secret_must_match_exactly() {
    assert!(is_executor_secret("0xdeadbeef"));
    assert!(!is_executor_secret("0xdeadbeef\n"));
    assert!(!is_executor_secret(""));
    assert!(!is_executor_secret("0XDEADBEEF"));
}

#[test]
fn success_status_is_2xx() {
    assert!(!is_success_status(199));
    assert!(is_success_status(200));
    assert!(is_success_status(204));
    assert!(is_success_status(299));
    assert!(!is_success_status(300));
    assert!(!is_success_status(500));
}

#[test]
fn setting_change_payload() {
    assert_eq!(setting_payload("fps", "60"), "fps 60");
    assert_eq!(setting_payload("", ""), " ");
}
