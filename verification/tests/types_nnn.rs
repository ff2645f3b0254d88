use chip8::types::nnn::nnn;

#[test]
fn is_valid_accepts_twelve_bit_values() {
    assert!(nnn::is_valid(0));
    assert!(nnn::is_valid(0x123));
    assert!(nnn::is_valid(4095));
    assert!(!nnn::is_valid(4096));
    assert!(!nnn::is_valid(u16::MAX));
}

#[test]
fn new_rejects_oversized_values() {
    let a = nnn::new(0x234).expect("in range");
    assert_eq!(a.value(), 0x234);
    assert!(nnn::new(4096).is_none());
}

#[test]
fn set_replaces_or_keeps_value() {
    let mut a = nnn::new(7).expect("in range");
    assert!(a.set(4095).is_ok());
    assert_eq!(a.value(), 4095);
    assert!(a.set(4096).is_err());
    assert_eq!(a.value(), 4095);
}
