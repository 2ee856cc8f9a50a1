use kmbox_net::telemetry::decode_datagram;

#[test]
fn decode_known_datagram() {
    // report id, buttons, x lo/hi, y lo/hi, wheel lo/hi,
    // kb report id, kb modifiers, 10 key codes
    let buf: Vec<u8> = vec![
        0, 5, 0x34, 0x12, 0xCE, 0xFF, 0x05, 0x00, 0, 0x03, 1, 2, 3, 4, 5, 6, 7, 8, 9, 10,
    ];
    let (mouse, keyboard) = decode_datagram(&buf).expect("a 20-byte datagram decodes");
    assert_eq!(mouse.buttons, 5);
    assert_eq!(mouse.x, 0x1234);
    assert_eq!(mouse.y, -50);
    assert_eq!(mouse.wheel, 5);
    assert_eq!(keyboard.buttons, 3);
    assert_eq!(keyboard.data, vec![1, 2, 3, 4, 5, 6, 7, 8, 9, 10]);
}

#[test]
fn decode_negative_extremes() {
    let mut buf = vec![0u8; 20];
    buf[2] = 0x00;
    buf[3] = 0x80; // x = -32768
    buf[4] = 0xFF;
    buf[5] = 0x7F; // y = 32767
    let (mouse, _) = decode_datagram(&buf).unwrap();
    assert_eq!(mouse.x, -32768);
    assert_eq!(mouse.y, 32767);
}

#[test]
fn short_datagram_decodes_to_nothing() {
    for len in 0..20 {
        let buf = vec![0xAAu8; len];
        assert!(decode_datagram(&buf).is_none());
    }
}

#[test]
fn long_datagram_reads_fixed_offsets_only() {
    let mut buf = vec![0u8; 64];
    buf[1] = 9;
    buf[9] = 1;
    for i in 0..10 {
        buf[10 + i] = 40 + i as u8;
    }
    buf[20] = 0xFF; // beyond the report, ignored
    let (mouse, keyboard) = decode_datagram(&buf).unwrap();
    assert_eq!(mouse.buttons, 9);
    assert_eq!(keyboard.buttons, 1);
    assert_eq!(keyboard.data, (40..50).collect::<Vec<u8>>());
}
