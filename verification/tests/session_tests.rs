use kmbox_net::client::str_to_hex;
use kmbox_net::protocol::{
    CMD_CONNECT, CMD_KEYBOARD_ALL, CMD_MONITOR, CMD_MOUSE_AUTOMOVE, CMD_MOUSE_LEFT,
    CMD_MOUSE_MOVE, CMD_SETCONFIG, CMD_SETVIDPID, CMD_SHOWPIC, CMD_TRACE_ENABLE, CMD_UNMASK_ALL,
    KmError,
};
use kmbox_net::KmBoxNetClient;

fn word(frame: &[u8], off: usize) -> u32 {
    u32::from_le_bytes([frame[off], frame[off + 1], frame[off + 2], frame[off + 3]])
}

#[test]
fn new_parses_mac_and_derives_key() {
    let c = KmBoxNetClient::new("11:22:33:44");
    assert_eq!(c.mac, 0x11223344);
    assert_eq!(c.indexpts, 0);
    let mut expected_key = vec![0x11u8, 0x22, 0x33, 0x44];
    expected_key.resize(16, 0);
    assert_eq!(c.key, expected_key);
    assert_eq!(c.soft_mouse.x, 0);
    assert_eq!(c.soft_keyboard.ctrl, 0);
}

#[test]
fn mac_parse_accepts_dashes_and_case() {
    assert_eq!(str_to_hex("AB-CD-ef-01"), 0xABCDEF01);
    assert_eq!(str_to_hex("abcdef01"), 0xABCDEF01);
}

#[test]
fn mac_parse_failures_degrade_to_zero() {
    assert_eq!(str_to_hex(""), 0);
    assert_eq!(str_to_hex("::"), 0);
    assert_eq!(str_to_hex("xyz"), 0);
    assert_eq!(str_to_hex("123456789"), 0); // over 32 bits
    assert_eq!(str_to_hex("12 34"), 0); // space is not a separator
}

#[test]
fn connect_frame_is_header_only_with_sequence_zero() {
    let mut c = KmBoxNetClient::new("11:22:33:44");
    c.indexpts = 7; // connect must not consume a sequence number
    let frame = c.connect();
    assert_eq!(frame.len(), kmbox_net::protocol::HEAD_SIZE);
    assert_eq!(word(&frame, 0), 0x11223344);
    assert_eq!(word(&frame, 8), 0);
    assert_eq!(word(&frame, 12), CMD_CONNECT);
    assert_eq!(c.indexpts, 7);
}

#[test]
fn connect_resets_reports() {
    let mut c = KmBoxNetClient::new("11:22:33:44");
    c.keydown(4);
    c.mouse_left(true);
    c.connect();
    assert_eq!(c.soft_keyboard.button, vec![0u8; 10]);
    assert_eq!(c.soft_mouse.button, 0);
}

#[test]
fn sequence_numbers_increase_per_command() {
    let mut c = KmBoxNetClient::new("11:22:33:44");
    let f1 = c.mouse_move(1, 2);
    let f2 = c.mouse_move(3, 4);
    assert_eq!(word(&f1, 8), 1);
    assert_eq!(word(&f2, 8), 2);
    assert_eq!(c.indexpts, 2);
}

#[test]
fn sequence_wraps_at_boundary_without_panicking() {
    let mut c = KmBoxNetClient::new("11:22:33:44");
    c.indexpts = u32::MAX;
    let frame = c.mouse_move(0, 0);
    assert_eq!(c.indexpts, 0);
    assert_eq!(word(&frame, 8), 0);
}

#[test]
fn mouse_move_sends_deltas_and_clears_them() {
    let mut c = KmBoxNetClient::new("11:22:33:44");
    let frame = c.mouse_move(100, 100);
    assert_eq!(frame.len(), 72);
    assert_eq!(word(&frame, 12), CMD_MOUSE_MOVE);
    assert_eq!(word(&frame, 20) as i32, 100);
    assert_eq!(word(&frame, 24) as i32, 100);
    assert_eq!(c.soft_mouse.x, 0);
    assert_eq!(c.soft_mouse.y, 0);
    let frame2 = c.mouse_move(-100, -100);
    assert_eq!(word(&frame2, 20) as i32, -100);
    assert_eq!(word(&frame2, 24) as i32, -100);
    assert_eq!(c.soft_mouse.x, 0);
    assert_eq!(c.soft_mouse.y, 0);
}

#[test]
fn mouse_buttons_accumulate_in_mask() {
    let mut c = KmBoxNetClient::new("11:22:33:44");
    let f = c.mouse_left(true);
    assert_eq!(word(&f, 12), CMD_MOUSE_LEFT);
    assert_eq!(word(&f, 16), 1);
    c.mouse_right(true);
    assert_eq!(c.soft_mouse.button, 3);
    c.mouse_middle(true);
    assert_eq!(c.soft_mouse.button, 7);
    c.mouse_left(false);
    assert_eq!(c.soft_mouse.button, 6);
    let f2 = c.mouse_side1(true);
    assert_eq!(word(&f2, 12), CMD_MOUSE_LEFT);
    assert_eq!(c.soft_mouse.button, 14);
}

#[test]
fn mouse_wheel_clears_delta() {
    let mut c = KmBoxNetClient::new("11:22:33:44");
    let f = c.mouse_wheel(-3);
    assert_eq!(word(&f, 28) as i32, -3);
    assert_eq!(c.soft_mouse.wheel, 0);
}

#[test]
fn mouse_move_auto_carries_duration_in_nonce() {
    let mut c = KmBoxNetClient::new("11:22:33:44");
    let f = c.mouse_move_auto(10, -10, 250);
    assert_eq!(word(&f, 4), 250);
    assert_eq!(word(&f, 12), CMD_MOUSE_AUTOMOVE);
    assert_eq!(c.soft_mouse.x, 0);
    assert_eq!(c.soft_mouse.y, 0);
}

#[test]
fn bezier_move_carries_control_points_and_clears_them() {
    let mut c = KmBoxNetClient::new("11:22:33:44");
    let f = c.mouse_move_beizer(5, 6, 100, 7, 8, 9, 10);
    assert_eq!(word(&f, 4), 100);
    // curve words start after button/x/y/wheel at offset 32
    assert_eq!(word(&f, 32) as i32, 7);
    assert_eq!(word(&f, 36) as i32, 8);
    assert_eq!(word(&f, 40) as i32, 9);
    assert_eq!(word(&f, 44) as i32, 10);
    assert_eq!(c.soft_mouse.point, vec![0i32; 10]);
}

#[test]
fn keydown_frames_full_report() {
    let mut c = KmBoxNetClient::new("11:22:33:44");
    let f = c.keydown(4);
    assert_eq!(f.len(), 28);
    assert_eq!(word(&f, 12), CMD_KEYBOARD_ALL);
    assert_eq!(f[16], 0); // no modifiers
    assert_eq!(f[18], 4); // first slot
    let f2 = c.keyup(4);
    assert_eq!(f2[18], 0);
}

#[test]
fn keydown_truncates_wide_key_codes() {
    let mut c = KmBoxNetClient::new("11:22:33:44");
    c.keydown(0x104); // low byte 4
    assert_eq!(c.soft_keyboard.button[0], 4);
}

#[test]
fn enc_frames_are_one_cipher_block() {
    let mut c = KmBoxNetClient::new("11:22:33:44");
    let f = c.enc_mouse_move(1, 1);
    assert_eq!(f.len(), 128);
    let f2 = c.enc_keydown(4);
    assert_eq!(f2.len(), 128);
}

#[test]
fn enc_frame_with_fixed_nonce_is_reproducible() {
    let mut a = KmBoxNetClient::new("11:22:33:44");
    let mut b = KmBoxNetClient::new("11:22:33:44");
    let fa = a.enc_mouse_move_auto(10, 20, 300);
    let fb = b.enc_mouse_move_auto(10, 20, 300);
    assert_eq!(fa, fb);
    // and it is not the plaintext frame
    let mut p = KmBoxNetClient::new("11:22:33:44");
    let plain = p.mouse_move_auto(10, 20, 300);
    assert_ne!(&fa[..16], &plain[..16]);
}

#[test]
fn monitor_nonce_marks_port() {
    let mut c = KmBoxNetClient::new("11:22:33:44");
    let f = c.monitor(5000);
    assert_eq!(f.len(), 16);
    assert_eq!(word(&f, 4), 0xaa55_0000 | 5000);
    assert_eq!(word(&f, 12), CMD_MONITOR);
    let f0 = c.monitor(0);
    assert_eq!(word(&f0, 4), 0);
}

#[test]
fn mask_flags_accumulate_and_reset() {
    let mut c = KmBoxNetClient::new("11:22:33:44");
    let f = c.mask_mouse_left(true);
    assert_eq!(c.mask_keyboard_mouse_flag, 0x01);
    assert_eq!(word(&f, 4), 1);
    c.mask_mouse_wheel(true);
    assert_eq!(c.mask_keyboard_mouse_flag, 0x81);
    c.mask_mouse_left(false);
    assert_eq!(c.mask_keyboard_mouse_flag, 0x80);
    let fk = c.mask_keyboard(4);
    assert_eq!(word(&fk, 4), 0x80 | (4 << 8));
    assert_eq!(c.mask_keyboard_mouse_flag, 0x80); // flag itself unchanged
    let fu = c.unmask_all();
    assert_eq!(word(&fu, 4), 0);
    assert_eq!(word(&fu, 12), CMD_UNMASK_ALL);
    assert_eq!(c.mask_keyboard_mouse_flag, 0);
}

#[test]
fn set_config_packs_address_and_port() {
    let mut c = KmBoxNetClient::new("11:22:33:44");
    let f = c.set_config("192.168.1.100", 8888).expect("valid address");
    assert_eq!(f.len(), 18);
    assert_eq!(word(&f, 4), u32::from_le_bytes([192, 168, 1, 100]));
    assert_eq!(word(&f, 12), CMD_SETCONFIG);
    assert_eq!(f[16], (8888u16 >> 8) as u8);
    assert_eq!(f[17], (8888u16 & 0xFF) as u8);
    assert_eq!(c.indexpts, 1);
}

#[test]
fn set_config_rejects_malformed_addresses() {
    let mut c = KmBoxNetClient::new("11:22:33:44");
    for bad in ["", "1.2.3", "1.2.3.4.5", "256.1.1.1", "01.2.3.4", "a.b.c.d", "1..2.3", "1.2.3.4 "]
    {
        let r = c.set_config(bad, 80);
        assert_eq!(r.unwrap_err(), KmError::NetCmd);
        assert_eq!(c.indexpts, 0); // nothing sent, no sequence number used
    }
    // edge octets are fine
    assert!(c.set_config("0.0.0.0", 1).is_ok());
    assert!(c.set_config("255.255.255.255", 1).is_ok());
}

#[test]
fn set_vid_pid_packs_ids_in_nonce() {
    let mut c = KmBoxNetClient::new("11:22:33:44");
    let f = c.set_vid_pid(0x1234, 0x5678);
    assert_eq!(f.len(), 16);
    assert_eq!(word(&f, 4), 0x5678_1234);
    assert_eq!(word(&f, 12), CMD_SETVIDPID);
}

#[test]
fn trace_enable_packs_type_and_value() {
    let mut c = KmBoxNetClient::new("11:22:33:44");
    let f = c.trace_enable(1, 16);
    assert_eq!(word(&f, 4), (1u32 << 24) | 16);
    assert_eq!(word(&f, 12), CMD_TRACE_ENABLE);
}

#[test]
fn lcd_color_produces_forty_ordered_frames() {
    let mut c = KmBoxNetClient::new("11:22:33:44");
    let frames = c.lcd_color(0xF800);
    assert_eq!(frames.len(), 40);
    assert_eq!(c.indexpts, 40);
    for (y, f) in frames.iter().enumerate() {
        assert_eq!(f.len(), 16 + 1024);
        assert_eq!(word(f, 4), (y as u32) * 4);
        assert_eq!(word(f, 8), (y as u32) + 1);
        assert_eq!(word(f, 12), CMD_SHOWPIC);
        assert_eq!(f[16], 0x00);
        assert_eq!(f[17], 0xF8);
    }
}

#[test]
fn lcd_picture_rejects_undersized_buffer() {
    let mut c = KmBoxNetClient::new("11:22:33:44");
    let small = vec![0u8; 100];
    assert_eq!(c.lcd_picture(&small).unwrap_err(), KmError::NetCmd);
    assert_eq!(c.lcd_picture_bottom(&small).unwrap_err(), KmError::NetCmd);
    assert_eq!(c.indexpts, 0);
}

#[test]
fn lcd_picture_chunks_buffer_in_order() {
    let mut c = KmBoxNetClient::new("11:22:33:44");
    let buff: Vec<u8> = (0..40960usize).map(|i| (i % 251) as u8).collect();
    let frames = c.lcd_picture(&buff).unwrap();
    assert_eq!(frames.len(), 40);
    for (y, f) in frames.iter().enumerate() {
        assert_eq!(word(f, 4), (y as u32) * 4);
        assert_eq!(&f[16..], &buff[y * 1024..(y + 1) * 1024]);
    }
    let mut c2 = KmBoxNetClient::new("11:22:33:44");
    let buff2: Vec<u8> = (0..20480usize).map(|i| (i % 13) as u8).collect();
    let frames2 = c2.lcd_picture_bottom(&buff2).unwrap();
    assert_eq!(frames2.len(), 20);
    for (y, f) in frames2.iter().enumerate() {
        assert_eq!(word(f, 4), 80 + (y as u32) * 4);
    }
}

#[test]
fn error_codes_and_messages() {
    assert_eq!(KmError::CreatSocket.code(), -9000);
    assert_eq!(KmError::NetTx.code(), -8998);
    assert_eq!(KmError::NetRxTimeout.code(), -8997);
    assert_eq!(KmError::NetCmd.code(), -8996);
    assert_eq!(KmError::Success.code(), 0);
    assert_eq!(KmError::UsbDevTxTimeout.code(), 1);
    assert_eq!(KmError::NetRxTimeout.message(), "Network receive timeout");
    assert_eq!(KmError::CreatSocket.message(), "Failed to create socket");
}
