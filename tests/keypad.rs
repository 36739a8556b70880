use chipper::keypad::{Key, Keypad};

#[test]
fn test_default() {
    let keypad = Keypad::default();
    // Ordered by the logical key each one stands for
    let keys: [Key; 16] = [
        Key::X, Key::Num1, Key::Num2, Key::Num3, Key::Q, Key::W, Key::E, Key::A, Key::S, Key::D,
        Key::Z, Key::C, Key::Num4, Key::R, Key::F, Key::V,
    ];

    for i in 0..keys.len() {
        assert_eq!(keypad.pressed(i), false);
    }
}

#[test]
fn test_test_pressing_keys() {
    let mut keypad = Keypad::default();
    // Ordered by the logical key each one stands for
    let keys: [Key; 16] = [
        Key::X, Key::Num1, Key::Num2, Key::Num3, Key::Q, Key::W, Key::E, Key::A, Key::S, Key::D,
        Key::Z, Key::C, Key::Num4, Key::R, Key::F, Key::V,
    ];

    for i in 0..keys.len() {
        keypad.press(keys[i], true);
        assert!(keypad.pressed(i));

        keypad.press(keys[i], false);
        assert_eq!(keypad.pressed(i), false);
    }
}

#[test]
fn test_keypad_test_pressing_keys() {
    let mut keypad = Keypad::default();
    let keys: [Key; 16] = [
        Key::X, Key::Num1, Key::Num2, Key::Num3, Key::Q, Key::W, Key::E, Key::A, Key::S, Key::D,
        Key::Z, Key::C, Key::Num4, Key::R, Key::F, Key::V,
    ];

    for i in 0..keys.len() {
        assert_eq!(keypad.pressed(i), false);
        keypad.press(keys[i], true);
        println!("i: {}", i);
        println!("pressed: {}", keypad.pressed(i));
        assert!(keypad.pressed(i));
        keypad.press(keys[i], false);
        assert_eq!(keypad.pressed(i), false);
    }
}

#[test]
fn pressing_one_key_leaves_the_others() {
    let mut keypad = Keypad::new();
    keypad.press(Key::Num4, true);
    for i in 0..16 {
        assert_eq!(keypad.pressed(i), i == 0xc);
    }
    keypad.set_key(0x3, true);
    assert!(keypad.pressed(0x3));
    assert!(keypad.pressed(0xc));
    keypad.set_key(0xc, false);
    assert!(!keypad.pressed(0xc));
}
