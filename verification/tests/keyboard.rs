use chip8::keyboard::{
    hex_to_scancode, is_hex_key_pressed, scancode_to_value, Scancode, CODE_A, CODE_C, CODE_D,
    CODE_E, CODE_F, CODE_NUM1, CODE_NUM2, CODE_NUM3, CODE_NUM4, CODE_Q, CODE_R, CODE_S, CODE_V,
    CODE_W, CODE_X, CODE_Z,
};

#[test]
fn keypad_lies_on_the_left_of_the_keyboard() {
    let layout = [
        (CODE_NUM1, 0x1),
        (CODE_NUM2, 0x2),
        (CODE_NUM3, 0x3),
        (CODE_NUM4, 0xC),
        (CODE_Q, 0x4),
        (CODE_W, 0x5),
        (CODE_E, 0x6),
        (CODE_R, 0xD),
        (CODE_A, 0x7),
        (CODE_S, 0x8),
        (CODE_D, 0x9),
        (CODE_F, 0xE),
        (CODE_Z, 0xA),
        (CODE_X, 0x0),
        (CODE_C, 0xB),
        (CODE_V, 0xF),
    ];
    for (code, value) in layout {
        assert_eq!(scancode_to_value(Scancode { code }), Some(value));
        assert_eq!(hex_to_scancode(value), Scancode { code });
    }
}

#[test]
fn codes_are_usb_usage_codes() {
    assert_eq!(CODE_A, 4);
    assert_eq!(CODE_C, 6);
    assert_eq!(CODE_D, 7);
    assert_eq!(CODE_E, 8);
    assert_eq!(CODE_F, 9);
    assert_eq!(CODE_Q, 20);
    assert_eq!(CODE_R, 21);
    assert_eq!(CODE_S, 22);
    assert_eq!(CODE_V, 25);
    assert_eq!(CODE_W, 26);
    assert_eq!(CODE_X, 27);
    assert_eq!(CODE_Z, 29);
    assert_eq!(CODE_NUM1, 30);
    assert_eq!(CODE_NUM2, 31);
    assert_eq!(CODE_NUM3, 32);
    assert_eq!(CODE_NUM4, 33);
}

#[test]
fn other_keys_carry_no_keypad_key() {
    let mut mapped = 0;
    for code in -8..600 {
        if scancode_to_value(Scancode { code }).is_some() {
            mapped += 1;
        }
    }
    assert_eq!(mapped, 16);
    // B, the digits 5 and 0, escape, and codes that name no key
    for code in [5, 34, 39, 41, 0, -1, i32::MAX, i32::MIN] {
        assert_eq!(scancode_to_value(Scancode { code }), None);
    }
}

#[test]
fn keypad_values_and_keys_are_one_to_one() {
    for hex in 0..=0xFu8 {
        assert_eq!(scancode_to_value(hex_to_scancode(hex)), Some(hex));
    }
}

#[test]
fn held_keys_are_found_among_the_pressed() {
    let pressed = vec![
        Scancode { code: 41 },
        Scancode { code: CODE_X },
        Scancode { code: CODE_R },
        Scancode { code: CODE_X },
    ];
    assert!(is_hex_key_pressed(&pressed, 0x0));
    assert!(is_hex_key_pressed(&pressed, 0xD));
    for hex in 1..=0xFu8 {
        if hex != 0xD {
            assert!(!is_hex_key_pressed(&pressed, hex));
        }
    }
    assert!(!is_hex_key_pressed(&Vec::new(), 0x0));
}

#[test]
fn values_above_the_keypad_are_never_held() {
    let all: Vec<Scancode> = (0..512).map(|code| Scancode { code }).collect();
    for hex in 0..=0xFu8 {
        assert!(is_hex_key_pressed(&all, hex));
    }
    for hex in 0x10..=0xFFu8 {
        assert!(!is_hex_key_pressed(&all, hex));
    }
}
