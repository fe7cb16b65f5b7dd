use microprofile::{Name, NameError};

#[test]
fn a_name_keeps_its_bytes_and_gains_the_closing_nul() {
    let name = Name::new("render").unwrap();
    assert_eq!(name.as_bytes(), b"render");
    assert_eq!(name.as_bytes_with_nul(), b"render\0");
    assert_eq!(name.len(), 6);
}

#[test]
fn the_empty_name_is_a_name() {
    let name = Name::new("").unwrap();
    assert_eq!(name.len(), 0);
    assert_eq!(name.as_bytes(), b"");
    assert_eq!(name.as_bytes_with_nul(), &[0u8]);
}

#[test]
fn a_name_is_stored_as_utf8() {
    let name = Name::new("caf\u{e9}").unwrap();
    assert_eq!(name.as_bytes(), &[b'c', b'a', b'f', 0xc3, 0xa9]);
    assert_eq!(name.len(), 5);
}

#[test]
fn a_nul_byte_is_rejected_with_its_place() {
    assert_eq!(Name::new("a\0b"), Err(NameError { position: 1 }));
    assert_eq!(Name::new("\0"), Err(NameError { position: 0 }));
    assert_eq!(Name::new("draw\0"), Err(NameError { position: 4 }));
}

#[test]
fn the_first_of_several_nul_bytes_is_reported() {
    assert_eq!(Name::new("ab\0cd\0"), Err(NameError { position: 2 }));
    assert_eq!(Name::new("\0\0\0"), Err(NameError { position: 0 }));
}

#[test]
fn the_place_of_a_nul_byte_counts_bytes_not_characters() {
    assert_eq!(Name::new("\u{e9}\0"), Err(NameError { position: 2 }));
}

#[test]
fn bytes_are_checked_as_text_is() {
    assert_eq!(Name::from_bytes(b"cull").unwrap().as_bytes_with_nul(), b"cull\0");
    assert_eq!(Name::from_bytes(b"cu\0ll"), Err(NameError { position: 2 }));
    assert_eq!(Name::from_bytes(b"cull"), Name::new("cull"));
    assert_eq!(Name::from_bytes(&[0xff, 0xfe]).unwrap().as_bytes(), &[0xff, 0xfe]);
}

#[test]
fn a_copy_of_a_name_is_the_same_name() {
    let name = Name::new("events").unwrap();
    let copy = name.clone();
    assert_eq!(copy, name);
    assert_eq!(copy.as_bytes_with_nul(), b"events\0");
}

#[test]
fn names_differ_when_their_bytes_differ() {
    assert_ne!(Name::new("events").unwrap(), Name::new("events2").unwrap());
}
