use hotel_bot::name::{bytes_eq, generate_room_name};

#[test]
fn canonical_name_lowercases_and_strips() {
    let r = generate_room_name(&b"Jane Doe".to_vec());
    assert_eq!(r, b"room-janedoe".to_vec());
}

#[test]
fn canonical_name_of_empty_is_bare_prefix() {
    let r = generate_room_name(&Vec::new());
    assert_eq!(r, b"room-".to_vec());
}

#[test]
fn canonical_name_strips_all_symbols() {
    let r = generate_room_name(&b"!!! ***".to_vec());
    assert_eq!(r, b"room-".to_vec());
}

#[test]
fn canonical_name_keeps_digits_and_case_folds() {
    let r = generate_room_name(&b"A1b2-C3".to_vec());
    assert_eq!(r, b"room-a1b2c3".to_vec());
}

#[test]
fn canonical_name_drops_non_ascii_bytes() {
    // "Žofia" in UTF-8: the two bytes of 'Ž' are outside ASCII and vanish.
    let r = generate_room_name(&"Žofia".as_bytes().to_vec());
    assert_eq!(r, b"room-ofia".to_vec());
}

#[test]
fn bytes_eq_compares_contents() {
    assert!(bytes_eq(&b"room-a".to_vec(), &b"room-a".to_vec()));
    assert!(!bytes_eq(&b"room-a".to_vec(), &b"room-b".to_vec()));
    assert!(!bytes_eq(&b"room-a".to_vec(), &b"room-ab".to_vec()));
}
