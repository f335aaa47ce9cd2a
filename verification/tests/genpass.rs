use rcli::genpass::password_bytes;
use rcli::{process_genpass, CharClasses, TextError};

const UPPER: &str = "ABCDEFGHJKLMNPQRSTUVWXYZ";
const LOWER: &str = "abcdefghijkmnopqrstuvwxyz";
const NUMBER: &str = "123456789";
const SYMBOL: &str = "!@#$%^&*_";

#[test]
fn a_password_has_the_length_asked_for() {
    for length in [0u8, 1, 3, 4, 5, 16, 32, 255] {
        let password = process_genpass(length, false, false, false, false).unwrap();
        assert_eq!(password.len(), length as usize);
    }
}

#[test]
fn a_password_holds_every_class_when_there_is_room() {
    for _ in 0..50 {
        let password = process_genpass(4, false, false, false, false).unwrap();
        assert!(password.chars().any(|c| UPPER.contains(c)));
        assert!(password.chars().any(|c| LOWER.contains(c)));
        assert!(password.chars().any(|c| NUMBER.contains(c)));
        assert!(password.chars().any(|c| SYMBOL.contains(c)));
    }
}

#[test]
fn a_password_draws_from_the_chosen_classes_only() {
    let digits = process_genpass(40, true, true, false, true).unwrap();
    assert!(digits.chars().all(|c| NUMBER.contains(c)));
    let letters = process_genpass(40, false, false, true, true).unwrap();
    assert!(letters.chars().all(|c| UPPER.contains(c) || LOWER.contains(c)));
    assert!(letters.chars().any(|c| UPPER.contains(c)));
    assert!(letters.chars().any(|c| LOWER.contains(c)));
    let all = process_genpass(200, false, false, false, false).unwrap();
    assert!(all.chars().all(|c| {
        UPPER.contains(c) || LOWER.contains(c) || NUMBER.contains(c) || SYMBOL.contains(c)
    }));
    assert!(!all.contains('I') && !all.contains('O') && !all.contains('l') && !all.contains('0'));
}

#[test]
fn a_password_needs_a_class_to_draw_from() {
    assert_eq!(process_genpass(16, true, true, true, true), Err(TextError::NoCharacterClass));
    assert_eq!(process_genpass(0, true, true, true, true), Err(TextError::NoCharacterClass));
    let none = CharClasses { uppercase: false, lowercase: false, number: false, symbol: false };
    assert_eq!(password_bytes(8, none), Err(TextError::NoCharacterClass));
}

#[test]
fn passwords_differ_from_draw_to_draw() {
    let one = process_genpass(32, false, false, false, false).unwrap();
    let two = process_genpass(32, false, false, false, false).unwrap();
    assert_ne!(one, two);
}

#[test]
fn password_bytes_are_the_characters() {
    let symbols = CharClasses { uppercase: false, lowercase: false, number: false, symbol: true };
    let bytes = password_bytes(300, symbols).unwrap();
    assert_eq!(bytes.len(), 300);
    assert!(bytes.iter().all(|b| SYMBOL.as_bytes().contains(b)));
}
