use password_cmp::constant_pwd_cmp;
use password_cmp::zeroize_memory;

#[test]
fn test_erase_nonzero_buffer() {
    let mut buf = b"secure_password123".to_vec();
    zeroize_memory(&mut buf);
    assert_eq!(buf.len(), 18);
    assert!(buf.iter().all(|&b| b == 0));
}

#[test]
fn test_erase_already_zero_buffer() {
    let mut buf = vec![0u8; 32];
    zeroize_memory(&mut buf);
    assert_eq!(buf.len(), 32);
    assert!(buf.iter().all(|&b| b == 0));
}

#[test]
fn test_erase_empty_buffer() {
    let mut buf: Vec<u8> = Vec::new();
    zeroize_memory(&mut buf);
    assert_eq!(buf.len(), 0);
}

#[test]
fn test_erase_twice_stays_zero() {
    let mut buf = vec![0xffu8; 16];
    zeroize_memory(&mut buf);
    zeroize_memory(&mut buf);
    assert_eq!(buf.len(), 16);
    assert!(buf.iter().all(|&b| b == 0));
}

#[test]
fn test_erase_every_byte_value() {
    let mut buf: Vec<u8> = (0..=255u8).collect();
    zeroize_memory(&mut buf);
    assert_eq!(buf.len(), 256);
    assert!(buf.iter().all(|&b| b == 0));
}

#[test]
fn test_compare_then_erase_scenario() {
    let mut a = b"secure_password123".to_vec();
    let mut b = b"secure_password123".to_vec();
    assert!(constant_pwd_cmp(&a, &b));
    let mut c = b"secuer_pas^7word123".to_vec();
    assert!(!constant_pwd_cmp(&a, &c));
    let mut d = b"secure_password1234".to_vec();
    assert!(!constant_pwd_cmp(&a, &d));
    zeroize_memory(&mut a);
    zeroize_memory(&mut b);
    zeroize_memory(&mut c);
    zeroize_memory(&mut d);
    assert!(a.iter().all(|&x| x == 0));
    assert!(b.iter().all(|&x| x == 0));
    assert!(c.iter().all(|&x| x == 0));
    assert!(d.iter().all(|&x| x == 0));
}
