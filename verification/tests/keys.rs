use biometric::keys::{KeyBuffer, Keys, KEY_BUFFER_LEN, VAULT_KEY_LEN};

#[test]
fn a_new_buffer_is_empty() {
    assert!(KeyBuffer::new().data().is_empty());
}

#[test]
fn a_zeroed_buffer_is_a_page_of_zeros() {
    let mut buffer = KeyBuffer::new();
    buffer.zero();
    assert_eq!(buffer.data(), vec![0_u8; KEY_BUFFER_LEN].as_slice());
    buffer.data_mut()[0] = 7;
    buffer.truncate(1);
    assert_eq!(buffer.data(), &[7]);
    buffer.zero();
    assert_eq!(buffer.data(), vec![0_u8; KEY_BUFFER_LEN].as_slice());
}

#[test]
fn zeroing_does_not_move_the_buffer() {
    let mut buffer = KeyBuffer::new();
    let before = buffer.data().as_ptr();
    buffer.zero();
    assert_eq!(buffer.data().as_ptr(), before);
}

#[test]
fn copying_overwrites_the_front() {
    let mut buffer = KeyBuffer::new();
    buffer.zero();
    buffer.truncate(5);
    buffer.copy_front(&[1, 2, 3]);
    assert_eq!(buffer.data(), &[1, 2, 3, 0, 0]);
}

#[test]
fn truncating_never_grows() {
    let mut buffer = KeyBuffer::new();
    buffer.zero();
    buffer.truncate(3);
    buffer.truncate(64);
    assert_eq!(buffer.data(), &[0, 0, 0]);
}

#[test]
fn keys_hold_the_buffer() {
    let mut buffer = KeyBuffer::new();
    buffer.zero();
    buffer.copy_front(&[9_u8; VAULT_KEY_LEN]);
    buffer.truncate(VAULT_KEY_LEN);
    assert_eq!(Keys::new(buffer).as_bytes(), &[9_u8; VAULT_KEY_LEN]);
}
