use mypasswd::cipher::CipherError;
use mypasswd::padding::{pkcs_pad, pkcs_strip};

#[test]
fn pad_fills_to_the_next_boundary() {
    let padded = pkcs_pad(b"hello");
    let mut expected = b"hello".to_vec();
    expected.extend(std::iter::repeat(11u8).take(11));
    assert_eq!(padded, expected);
}

#[test]
fn whole_block_input_gains_a_full_pad_block() {
    let padded = pkcs_pad(&[7u8; 16]);
    assert_eq!(padded.len(), 32);
    assert_eq!(&padded[..16], &[7u8; 16]);
    assert_eq!(&padded[16..], &[16u8; 16]);
    let empty = pkcs_pad(b"");
    assert_eq!(empty, vec![16u8; 16]);
}

#[test]
fn strip_undoes_pad() {
    for n in [0usize, 1, 15, 16, 17, 100] {
        let data: Vec<u8> = (0..n).map(|i| i as u8).collect();
        let stripped = pkcs_strip(&pkcs_pad(&data)).unwrap();
        assert_eq!(stripped, data);
    }
}

#[test]
fn pad_byte_over_block_size_is_refused() {
    // A final block of sixteen equal bytes above 16 is no valid pad and
    // must be answered with an error, not by aborting.
    assert_eq!(pkcs_strip(&[0x11u8; 16]), Err(CipherError::InvalidPadding));
    assert_eq!(pkcs_strip(&[0xffu8; 16]), Err(CipherError::InvalidPadding));
}

#[test]
fn pad_byte_zero_is_refused() {
    // A trailing zero names no pad at all; accepting it would let a
    // malformed block pass as valid.
    let mut block = [5u8; 16];
    block[15] = 0;
    assert_eq!(pkcs_strip(&block), Err(CipherError::InvalidPadding));
}

#[test]
fn broken_pad_run_is_refused() {
    // The last byte claims three pad bytes but only two match it.
    let mut block = [9u8; 16];
    block[13] = 1;
    block[14] = 3;
    block[15] = 3;
    assert_eq!(pkcs_strip(&block), Err(CipherError::InvalidPadding));
}
