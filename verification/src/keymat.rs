//! Key material: the cipher key and the initialization vector are derived
//! from configured constants by right-padding with ASCII `'0'` bytes up to
//! the length the cipher requires.

use vstd::prelude::*;
use vstd::slice::slice_to_vec;

verus! {

/// Length in bytes of an AES-256 key.
pub const KEY_LEN: usize = 32;

/// Length in bytes of the AES block, and so of a CBC initialization vector.
pub const IV_LEN: usize = 16;

/// The fill byte used to right-pad a constant: ASCII `'0'`.
pub const PAD_BYTE: u8 = 0x30;

/// Error in the configured constants themselves.
///
/// A constant longer than the length it must be padded to is rejected
/// outright rather than silently truncated, which would weaken the key.
#[derive(Debug, PartialEq, Eq, Structural, Clone, Copy)]
pub enum KeyMaterialError {
    ConstantTooLong,
}

/// `s` right-padded with `PAD_BYTE` up to length `n`.
pub open spec fn spec_pad_fill(s: Seq<u8>, n: nat) -> Seq<u8>
    recommends
        s.len() <= n,
{
    s + Seq::new((n - s.len()) as nat, |i: int| PAD_BYTE)
}

/// The 32-byte cipher key derived from a configured constant.
pub open spec fn spec_derive_key(s: Seq<u8>) -> Seq<u8> {
    spec_pad_fill(s, KEY_LEN as nat)
}

/// The 16-byte initialization vector derived from a configured constant.
pub open spec fn spec_derive_iv(s: Seq<u8>) -> Seq<u8> {
    spec_pad_fill(s, IV_LEN as nat)
}

/// Padding reaches exactly the requested length.
pub proof fn lemma_pad_fill_len(s: Seq<u8>, n: nat)
    requires
        s.len() <= n,
    ensures
        spec_pad_fill(s, n).len() == n,
{
}

fn pad_fill(data: &[u8], n: usize) -> (r: Result<Vec<u8>, KeyMaterialError>)
    ensures
        data@.len() <= n ==> (r matches Ok(v) && v@ == spec_pad_fill(data@, n as nat)),
        data@.len() > n ==> r == Err::<Vec<u8>, KeyMaterialError>(
            KeyMaterialError::ConstantTooLong,
        ),
{
    if data.len() > n {
        return Err(KeyMaterialError::ConstantTooLong);
    }
    let mut v = slice_to_vec(data);
    while v.len() < n
        invariant
            data@.len() <= n,
            data@.len() <= v@.len() <= n,
            forall|i: int| 0 <= i < data@.len() ==> v@[i] == data@[i],
            forall|i: int| data@.len() <= i < v@.len() ==> v@[i] == PAD_BYTE,
        decreases n - v.len(),
    {
        v.push(PAD_BYTE);
    }
    proof {
        assert(v@ =~= spec_pad_fill(data@, n as nat));
    }
    Ok(v)
}

/// Derives the cipher key: the constant's bytes right-padded with `'0'`
/// up to 32 bytes. Pure: the result is a function of `constant` alone.
/// A constant longer than 32 bytes is rejected.
pub fn derive_key(constant: &[u8]) -> (r: Result<Vec<u8>, KeyMaterialError>)
    ensures
        constant@.len() <= KEY_LEN ==> (r matches Ok(k) && k@ == spec_derive_key(constant@)
            && k@.len() == KEY_LEN),
        constant@.len() > KEY_LEN ==> r == Err::<Vec<u8>, KeyMaterialError>(
            KeyMaterialError::ConstantTooLong,
        ),
{
    proof {
        if constant@.len() <= KEY_LEN {
            lemma_pad_fill_len(constant@, KEY_LEN as nat);
        }
    }
    pad_fill(constant, KEY_LEN)
}

/// Derives the initialization vector: the constant's bytes right-padded
/// with `'0'` up to 16 bytes. Pure: the result is a function of
/// `constant` alone. A constant longer than 16 bytes is rejected.
pub fn derive_iv(constant: &[u8]) -> (r: Result<Vec<u8>, KeyMaterialError>)
    ensures
        constant@.len() <= IV_LEN ==> (r matches Ok(k) && k@ == spec_derive_iv(constant@)
            && k@.len() == IV_LEN),
        constant@.len() > IV_LEN ==> r == Err::<Vec<u8>, KeyMaterialError>(
            KeyMaterialError::ConstantTooLong,
        ),
{
    proof {
        if constant@.len() <= IV_LEN {
            lemma_pad_fill_len(constant@, IV_LEN as nat);
        }
    }
    pad_fill(constant, IV_LEN)
}

} // verus!
