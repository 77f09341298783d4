//! PKCS-style block padding, done in verified code: pad to the next
//! 16-byte boundary with bytes whose value is the pad length, and strip
//! exactly that padding after decryption, refusing anything malformed.

use vstd::prelude::*;
use vstd::arithmetic::div_mod::{lemma_fundamental_div_mod, lemma_mod_multiples_basic,
    lemma_small_mod};
use vstd::slice::{slice_subrange, slice_to_vec};
use crate::cipher::CipherError;

verus! {

/// `data` extended to the next block boundary: between 1 and 16 bytes
/// are appended, each holding the number of bytes appended. Data already
/// on a boundary gains a whole block, so the padding is always present.
pub open spec fn spec_pkcs_pad(data: Seq<u8>) -> Seq<u8> {
    data + Seq::new((16 - data.len() % 16) as nat, |i: int| (16 - data.len() % 16) as u8)
}

/// The padding removed again: the last byte names the pad length, which
/// must be between 1 and 16 with that many copies of itself at the end;
/// anything else is malformed and yields `None`.
pub open spec fn spec_pkcs_strip(m: Seq<u8>) -> Option<Seq<u8>>
    recommends
        m.len() > 0,
        m.len() % 16 == 0,
{
    let v = m[m.len() - 1] as int;
    if 1 <= v <= 16 && v <= m.len() && (forall|j: int|
        m.len() - v <= j < m.len() ==> #[trigger] m[j] == m[m.len() - 1]) {
        Some(m.take(m.len() - v))
    } else {
        None
    }
}

/// Padding lands exactly on the next block boundary.
pub proof fn lemma_pkcs_pad_len(data: Seq<u8>)
    ensures
        spec_pkcs_pad(data).len() == data.len() + (16 - data.len() % 16),
        spec_pkcs_pad(data).len() == (data.len() / 16 + 1) * 16,
        spec_pkcs_pad(data).len() % 16 == 0,
{
    lemma_fundamental_div_mod(data.len() as int, 16);
    lemma_mod_multiples_basic(data.len() as int / 16 + 1, 16);
}

/// Stripping undoes padding: for every byte buffer, the pad that
/// `spec_pkcs_pad` appended is recognised and removed exactly.
pub proof fn lemma_pkcs_strip_of_pad(data: Seq<u8>)
    ensures
        spec_pkcs_strip(spec_pkcs_pad(data)) == Some(data),
{
    let m = spec_pkcs_pad(data);
    let v = (16 - data.len() % 16) as int;
    lemma_pkcs_pad_len(data);
    assert(m[m.len() - 1] == (v as u8));
    assert(forall|j: int| m.len() - v <= j < m.len() ==> #[trigger] m[j] == m[m.len() - 1]);
    assert(m.take(m.len() - v) =~= data);
}

/// Appends the pad: between 1 and 16 copies of the pad length itself,
/// up to the next block boundary.
pub fn pkcs_pad(data: &[u8]) -> (r: Vec<u8>)
    ensures
        r@ == spec_pkcs_pad(data@),
        r@.len() == (data@.len() / 16 + 1) * 16,
        r@.len() % 16 == 0,
{
    let pad: usize = 16 - data.len() % 16;
    let mut v = slice_to_vec(data);
    let mut i: usize = 0;
    while i < pad
        invariant
            i <= pad,
            pad == 16 - data@.len() % 16,
            v@.len() == data@.len() + i,
            forall|j: int| 0 <= j < data@.len() ==> v@[j] == data@[j],
            forall|j: int| data@.len() <= j < v@.len() ==> v@[j] == (pad as u8),
        decreases pad - i,
    {
        v.push(pad as u8);
        i = i + 1;
    }
    proof {
        assert(v@ =~= spec_pkcs_pad(data@));
        lemma_pkcs_pad_len(data@);
    }
    v
}

/// Checks and removes the pad of a decrypted whole-block buffer,
/// exactly as `spec_pkcs_strip` lays it down; a malformed pad — a last
/// byte outside 1..=16, or trailing bytes that do not all repeat it —
/// is refused as a padding error.
pub fn pkcs_strip(m: &[u8]) -> (r: Result<Vec<u8>, CipherError>)
    requires
        m@.len() > 0,
        m@.len() % 16 == 0,
    ensures
        spec_pkcs_strip(m@) matches Some(p) ==> (r matches Ok(v) && v@ == p),
        spec_pkcs_strip(m@) is None ==> r == Err::<Vec<u8>, CipherError>(
            CipherError::InvalidPadding,
        ),
{
    proof {
        if m@.len() < 16 {
            lemma_small_mod(m@.len(), 16);
        }
        assert(m@.len() >= 16);
    }
    let last = m[m.len() - 1];
    if last < 1 || last > 16 {
        return Err(CipherError::InvalidPadding);
    }
    let pad = last as usize;
    let start = m.len() - pad;
    let mut i: usize = start;
    while i < m.len()
        invariant
            m@.len() >= 16,
            last == m@[m@.len() - 1],
            1 <= pad <= 16,
            pad == last as int,
            start == m@.len() - pad,
            start <= i <= m@.len(),
            forall|j: int| start <= j < i ==> #[trigger] m@[j] == m@[m@.len() - 1],
        decreases m@.len() - i,
    {
        if m[i] != last {
            return Err(CipherError::InvalidPadding);
        }
        i = i + 1;
    }
    Ok(slice_to_vec(slice_subrange(m, 0, start)))
}

} // verus!
