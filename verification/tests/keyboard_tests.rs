use kmbox_net::keys::{KEY_LEFTSHIFT, KEY_RIGHT_GUI};
use kmbox_net::protocol::{zero_keyboard, SoftKeyboard};

fn slots(k: &SoftKeyboard) -> &[u8] {
    k.button.as_slice()
}

#[test]
fn distinct_downs_fill_in_order() {
    let mut k = zero_keyboard();
    k.key_down(4);
    k.key_down(5);
    k.key_down(6);
    assert_eq!(slots(&k), &[4, 5, 6, 0, 0, 0, 0, 0, 0, 0]);
    assert_eq!(k.ctrl, 0);
}

#[test]
fn down_is_idempotent() {
    let mut k = zero_keyboard();
    k.key_down(7);
    k.key_down(7);
    assert_eq!(slots(&k), &[7, 0, 0, 0, 0, 0, 0, 0, 0, 0]);
}

#[test]
fn ten_distinct_downs_fill_all_slots() {
    let mut k = zero_keyboard();
    for c in 4u8..14 {
        k.key_down(c);
    }
    assert_eq!(slots(&k), &[4, 5, 6, 7, 8, 9, 10, 11, 12, 13]);
}

#[test]
fn eleventh_down_evicts_oldest() {
    let mut k = zero_keyboard();
    for c in 4u8..14 {
        k.key_down(c);
    }
    k.key_down(20);
    assert_eq!(slots(&k), &[5, 6, 7, 8, 9, 10, 11, 12, 13, 20]);
    assert_eq!(k.button.len(), 10);
}

#[test]
fn up_closes_gap() {
    let mut k = zero_keyboard();
    k.key_down(4);
    k.key_down(5);
    k.key_down(6);
    k.key_up(5);
    assert_eq!(slots(&k), &[4, 6, 0, 0, 0, 0, 0, 0, 0, 0]);
}

#[test]
fn up_twice_is_noop_second_time() {
    let mut k = zero_keyboard();
    k.key_down(4);
    k.key_down(5);
    k.key_up(4);
    let after_first = k.button.clone();
    k.key_up(4);
    assert_eq!(k.button, after_first);
    assert_eq!(slots(&k), &[5, 0, 0, 0, 0, 0, 0, 0, 0, 0]);
}

#[test]
fn up_of_absent_code_is_noop() {
    let mut k = zero_keyboard();
    k.key_down(4);
    k.key_up(99);
    assert_eq!(slots(&k), &[4, 0, 0, 0, 0, 0, 0, 0, 0, 0]);
}

#[test]
fn modifier_sets_and_clears_bit() {
    let mut k = zero_keyboard();
    k.key_down(KEY_LEFTSHIFT);
    assert_eq!(k.ctrl, 0x02);
    assert_eq!(slots(&k), &[0; 10]);
    k.key_down(KEY_RIGHT_GUI);
    assert_eq!(k.ctrl, 0x82);
    k.key_up(KEY_LEFTSHIFT);
    assert_eq!(k.ctrl, 0x80);
    k.key_up(KEY_RIGHT_GUI);
    assert_eq!(k.ctrl, 0);
}

#[test]
fn code_above_modifier_range_uses_slots() {
    let mut k = zero_keyboard();
    k.key_down(0xE8);
    assert_eq!(k.ctrl, 0);
    assert_eq!(slots(&k), &[0xE8, 0, 0, 0, 0, 0, 0, 0, 0, 0]);
}
