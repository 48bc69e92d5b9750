use mothra::identity::load_private_key;

fn valid_key() -> Vec<u8> {
    let mut k = vec![0u8; 32];
    k[31] = 1;
    k[0] = 0x42;
    k
}

#[test]
fn saved_key_is_loaded_back() {
    let k = valid_key();
    let r = load_private_key(Some(k.clone()));
    assert!(!r.generated);
    assert_eq!(r.secret, k);
}

#[test]
fn missing_key_is_generated() {
    let r = load_private_key(None);
    assert!(r.generated);
    assert_eq!(r.secret.len(), 32);
    let again = load_private_key(Some(r.secret.clone()));
    assert!(!again.generated);
    assert_eq!(again.secret, r.secret);
}

#[test]
fn zero_key_is_replaced() {
    let r = load_private_key(Some(vec![0u8; 32]));
    assert!(r.generated);
    assert_ne!(r.secret, vec![0u8; 32]);
}

#[test]
fn wrong_length_key_is_replaced() {
    let r = load_private_key(Some(vec![1u8; 40]));
    assert!(r.generated);
    assert_eq!(r.secret.len(), 32);
}

#[test]
fn short_key_is_padded() {
    let short = vec![5u8; 28];
    let r = load_private_key(Some(short));
    assert!(!r.generated);
    let mut expected = vec![0u8; 4];
    expected.extend(vec![5u8; 28]);
    assert_eq!(r.secret, expected);
}

#[test]
fn too_short_key_is_replaced() {
    let r = load_private_key(Some(vec![5u8; 23]));
    assert!(r.generated);
    assert_eq!(r.secret.len(), 32);
}

fn order_bytes() -> Vec<u8> {
    vec![
        0xFF, 0xFF, 0xFF, 0xFF, 0xFF, 0xFF, 0xFF, 0xFF, 0xFF, 0xFF, 0xFF, 0xFF, 0xFF, 0xFF, 0xFF,
        0xFE, 0xBA, 0xAE, 0xDC, 0xE6, 0xAF, 0x48, 0xA0, 0x3B, 0xBF, 0xD2, 0x5E, 0x8C, 0xD0, 0x36,
        0x41, 0x41,
    ]
}

#[test]
fn key_at_group_order_is_replaced() {
    let n = order_bytes();
    assert_eq!(n.len(), 32);
    let r = load_private_key(Some(n.clone()));
    assert!(r.generated);
    let mut below = n;
    below[31] = 0x40;
    let r = load_private_key(Some(below.clone()));
    assert!(!r.generated);
    assert_eq!(r.secret, below);
}
