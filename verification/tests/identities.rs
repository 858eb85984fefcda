use authchain_lock::{Identity, IDENTITY_LEN};

#[test]
fn identity_is_thirty_two_bytes_long() {
    assert_eq!(IDENTITY_LEN, 32);
    assert_eq!(Identity::new([0; 32]).to_bytes().len(), IDENTITY_LEN);
}

#[test]
fn identity_gives_back_its_bytes() {
    let mut bytes = [0u8; 32];
    for (i, byte) in bytes.iter_mut().enumerate() {
        *byte = (i * 8) as u8;
    }
    let id = Identity::new(bytes);
    assert_eq!(id.to_bytes(), bytes);
    assert_eq!(id.0, bytes);
    assert_eq!(Identity(bytes), id);
}

#[test]
fn identities_are_equal_when_all_bytes_agree() {
    assert_eq!(Identity::new([7; 32]), Identity::new([7; 32]));
    assert_eq!(Identity::new([0; 32]), Identity::new([0; 32]));
}

#[test]
fn identities_differ_when_any_byte_differs() {
    let base = Identity::new([5; 32]);
    for position in 0..32 {
        let mut bytes = [5u8; 32];
        bytes[position] = 6;
        let other = Identity::new(bytes);
        assert_ne!(base, other, "byte {position}");
        assert_ne!(other, base, "byte {position}");
    }
}
