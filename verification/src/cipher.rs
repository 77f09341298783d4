//! The symmetric transform: AES-256 in CBC mode with PKCS-style padding.
//!
//! The padding is this crate's own verified logic (`padding`); the
//! `crypto` crate's engine is driven in raw CBC mode, without its
//! padding processor, so every input handed to it is a whole number of
//! blocks and the engine's unchecked pad handling is never reached.
//! The engine works through a streaming buffer protocol: the whole
//! input is presented at once, the engine is invoked repeatedly with a
//! fixed-size intermediate output buffer, and every produced chunk is
//! drained after each invocation. An underflow signal from the engine
//! ends the loop; an overflow signal means the intermediate buffer is
//! full and another round is needed. The loops here are verified
//! against contracts on the engine; only the single engine invocation
//! itself is trusted.

use vstd::prelude::*;
use vstd::arithmetic::div_mod::lemma_mod_multiples_basic;
use crate::keymat::{IV_LEN, KEY_LEN};
use crate::padding::{lemma_pkcs_pad_len, lemma_pkcs_strip_of_pad, pkcs_pad, pkcs_strip,
    spec_pkcs_pad, spec_pkcs_strip};
use crypto::buffer::{BufferResult, ReadBuffer, RefReadBuffer, RefWriteBuffer, WriteBuffer};
use crypto::symmetriccipher::SymmetricCipherError;

verus! {

/// Size in bytes of the intermediate buffer the streaming loops drain.
pub const CHUNK_LEN: usize = 4096;

/// What raw AES-256-CBC encryption (no padding) returns for this key,
/// initialization vector and whole-block input. A function of its
/// arguments alone; what is known of it is stated where the engine is
/// created.
pub uninterp spec fn aes_cbc_enc_raw(key: Seq<u8>, iv: Seq<u8>, data: Seq<u8>) -> Seq<u8>;

/// What raw AES-256-CBC decryption (no padding) returns for this key,
/// initialization vector and whole-block input.
pub uninterp spec fn aes_cbc_dec_raw(key: Seq<u8>, iv: Seq<u8>, data: Seq<u8>) -> Seq<u8>;

/// A failure while decrypting: a ciphertext whose length is not a
/// multiple of the block size, or a final block whose padding is
/// malformed.
#[derive(Debug, PartialEq, Eq, Structural, Clone, Copy)]
pub enum CipherError {
    InvalidLength,
    InvalidPadding,
}

/// The whole encryption transform: nothing for an empty input — the
/// transform is skipped, as the streaming engine also skips it — else
/// raw CBC over the padded input.
pub open spec fn spec_encrypt(key: Seq<u8>, iv: Seq<u8>, data: Seq<u8>) -> Seq<u8> {
    if data.len() == 0 {
        Seq::empty()
    } else {
        aes_cbc_enc_raw(key, iv, spec_pkcs_pad(data))
    }
}

/// The whole decryption transform: an empty input decrypts to an empty
/// buffer; a length off the block boundary is a length error; otherwise
/// the raw blocks are decrypted and the pad is checked and stripped,
/// a malformed pad being a padding error.
pub open spec fn spec_decrypt(key: Seq<u8>, iv: Seq<u8>, data: Seq<u8>) -> Result<
    Seq<u8>,
    CipherError,
> {
    if data.len() == 0 {
        Ok(Seq::empty())
    } else if data.len() % 16 != 0 {
        Err(CipherError::InvalidLength)
    } else {
        match spec_pkcs_strip(aes_cbc_dec_raw(key, iv, data)) {
            Some(p) => Ok(p),
            None => Err(CipherError::InvalidPadding),
        }
    }
}

/// An encryption in progress: the boxed raw CBC engine of the `crypto`
/// crate together with the input it has not yet consumed.
#[verifier::external_body]
pub struct EncryptEngine {
    inner: Box<dyn crypto::symmetriccipher::Encryptor>,
    data: Vec<u8>,
}

/// The ciphertext bytes this engine has yet to hand out.
pub uninterp spec fn enc_pending(e: EncryptEngine) -> Seq<u8>;

/// A decryption in progress: the boxed raw CBC engine of the `crypto`
/// crate together with the input it has not yet consumed.
#[verifier::external_body]
pub struct DecryptEngine {
    inner: Box<dyn crypto::symmetriccipher::Decryptor>,
    data: Vec<u8>,
}

/// The plaintext bytes this engine has yet to hand out, or `None` where
/// the input's length will be refused.
pub uninterp spec fn dec_state(e: DecryptEngine) -> Option<Seq<u8>>;

/// The number of input bytes this engine has not yet consumed; each
/// overflow round consumes some, which bounds the rounds left.
pub uninterp spec fn dec_togo(e: DecryptEngine) -> nat;

impl EncryptEngine {
    /// Relies on `crypto::aes::cbc_encryptor` with `NoPadding` (raw
    /// AES-256-CBC): the transform is a function of key, iv and input
    /// alone and preserves the length of a whole-block input. Keys must
    /// be 32 bytes and initialization vectors 16, else the constructors
    /// abort; input off the block boundary would be refused, so it is
    /// excluded too.
    #[verifier::external_body]
    fn new(key: &[u8], iv: &[u8], data: &[u8]) -> (e: EncryptEngine)
        requires
            key@.len() == KEY_LEN,
            iv@.len() == IV_LEN,
            data@.len() % 16 == 0,
        ensures
            enc_pending(e) == aes_cbc_enc_raw(key@, iv@, data@),
            enc_pending(e).len() == data@.len(),
    {
        EncryptEngine {
            inner: crypto::aes::cbc_encryptor(
                crypto::aes::KeySize::KeySize256,
                key,
                iv,
                crypto::blockmodes::NoPadding,
            ),
            data: data.to_vec(),
        }
    }

    /// Relies on `crypto::symmetriccipher::Encryptor::encrypt`: each
    /// invocation hands out the next chunk of the ciphertext; overflow
    /// means the 4096-byte intermediate buffer was filled whole, and
    /// underflow means all input was consumed and the transform is
    /// complete. On whole-block input, raw CBC encryption signals no
    /// error.
    #[verifier::external_body]
    fn step(&mut self) -> (r: (Vec<u8>, bool))
        ensures
            enc_pending(*old(self)) == r.0@ + enc_pending(*final(self)),
            r.1 ==> enc_pending(*final(self)).len() == 0,
            !r.1 ==> r.0@.len() == CHUNK_LEN,
    {
        let mut out = [0u8; 4096];
        let mut write_buffer = RefWriteBuffer::new(&mut out);
        let mut read_buffer = RefReadBuffer::new(&self.data);
        let result = self.inner.encrypt(&mut read_buffer, &mut write_buffer, true).expect(
            "raw CBC encryption of whole blocks cannot fail",
        );
        let rest = read_buffer.take_remaining().to_vec();
        let chunk = write_buffer.take_read_buffer().take_remaining().to_vec();
        self.data = rest;
        (chunk, matches!(result, BufferResult::BufferUnderflow))
    }
}

impl DecryptEngine {
    /// Relies on `crypto::aes::cbc_decryptor` with `NoPadding` (raw
    /// AES-256-CBC): the transform is a function of key, iv and input
    /// alone; it preserves a whole-block input's length, inverts the
    /// raw encryption under the same key and iv, and refuses an input
    /// whose length is not a multiple of the block size — with no
    /// padding processor it touches no pad bytes and cannot abort on
    /// any input. Keys must be 32 bytes and initialization vectors 16,
    /// else the constructors abort.
    #[verifier::external_body]
    fn new(key: &[u8], iv: &[u8], data: &[u8]) -> (e: DecryptEngine)
        requires
            key@.len() == KEY_LEN,
            iv@.len() == IV_LEN,
        ensures
            data@.len() % 16 == 0 ==> dec_state(e) == Some(aes_cbc_dec_raw(key@, iv@, data@)),
            data@.len() % 16 != 0 ==> dec_state(e) is None,
            dec_state(e) matches Some(m) ==> m.len() == data@.len(),
            dec_togo(e) == data@.len(),
            forall|p: Seq<u8>|
                p.len() % 16 == 0 && data@ == #[trigger] aes_cbc_enc_raw(key@, iv@, p)
                    ==> dec_state(e) == Some(p),
    {
        DecryptEngine {
            inner: crypto::aes::cbc_decryptor(
                crypto::aes::KeySize::KeySize256,
                key,
                iv,
                crypto::blockmodes::NoPadding,
            ),
            data: data.to_vec(),
        }
    }

    /// Relies on `crypto::symmetriccipher::Decryptor::decrypt`: each
    /// invocation hands out the next chunk of the decrypted blocks;
    /// overflow means the intermediate buffer was filled and some input
    /// was consumed, and underflow means the transform completed whole.
    /// The only error raw CBC can signal is a length off the block
    /// boundary, answered normally, never by an abort.
    #[verifier::external_body]
    fn step(&mut self) -> (r: Result<(Vec<u8>, bool), CipherError>)
        ensures
            r matches Ok(c) ==> {
                &&& dec_state(*old(self)) is Some ==> (dec_state(*final(self)) is Some
                    && dec_state(*old(self)).unwrap() == c.0@ + dec_state(*final(self)).unwrap())
                &&& dec_state(*old(self)) is None ==> dec_state(*final(self)) is None
                &&& c.1 ==> (dec_state(*old(self)) is Some && dec_state(*final(self))
                    == Some(Seq::<u8>::empty()))
                &&& !c.1 ==> dec_togo(*final(self)) < dec_togo(*old(self))
            },
            r matches Err(e) ==> (dec_state(*old(self)) is None && e
                == CipherError::InvalidLength),
    {
        let mut out = [0u8; 4096];
        let mut write_buffer = RefWriteBuffer::new(&mut out);
        let mut read_buffer = RefReadBuffer::new(&self.data);
        let result = self.inner.decrypt(&mut read_buffer, &mut write_buffer, true);
        let rest = read_buffer.take_remaining().to_vec();
        let chunk = write_buffer.take_read_buffer().take_remaining().to_vec();
        self.data = rest;
        match result {
            Ok(r) => Ok((chunk, matches!(r, BufferResult::BufferUnderflow))),
            Err(SymmetricCipherError::InvalidLength) => Err(CipherError::InvalidLength),
            Err(SymmetricCipherError::InvalidPadding) => Err(CipherError::InvalidPadding),
        }
    }
}

/// Encrypts `data` under `key` and `iv`: empty for an empty input, else
/// the input padded to the next block boundary and run through raw CBC
/// — always a whole number of blocks.
pub fn encrypt(data: &[u8], key: &[u8], iv: &[u8]) -> (result: Vec<u8>)
    requires
        key@.len() == KEY_LEN,
        iv@.len() == IV_LEN,
    ensures
        result@ == spec_encrypt(key@, iv@, data@),
        result@.len() % 16 == 0,
        data@.len() == 0 ==> result@.len() == 0,
        data@.len() > 0 ==> result@.len() == (data@.len() / 16 + 1) * 16,
{
    if data.len() == 0 {
        return Vec::new();
    }
    let padded = pkcs_pad(data);
    let mut engine = EncryptEngine::new(key, iv, padded.as_slice());
    let mut result: Vec<u8> = Vec::new();
    loop
        invariant
            result@ + enc_pending(engine) == aes_cbc_enc_raw(key@, iv@, padded@),
            aes_cbc_enc_raw(key@, iv@, padded@).len() == padded@.len(),
        ensures
            result@ == aes_cbc_enc_raw(key@, iv@, padded@),
            result@.len() == padded@.len(),
        decreases enc_pending(engine).len(),
    {
        let (mut chunk, done) = engine.step();
        result.append(&mut chunk);
        if done {
            proof {
                assert(result@ =~= aes_cbc_enc_raw(key@, iv@, padded@));
            }
            break ;
        }
    }
    proof {
        lemma_pkcs_pad_len(data@);
        lemma_mod_multiples_basic(data@.len() as int / 16 + 1, 16);
    }
    result
}

/// Decrypts `data` under `key` and `iv`, exactly as `spec_decrypt` lays
/// it down: an empty input yields an empty buffer, a length off the
/// block boundary is refused as a length error, a malformed pad as a
/// padding error, and everything `encrypt` produced under the same key
/// and iv comes back as the original plaintext.
pub fn decrypt(data: &[u8], key: &[u8], iv: &[u8]) -> (result: Result<Vec<u8>, CipherError>)
    requires
        key@.len() == KEY_LEN,
        iv@.len() == IV_LEN,
    ensures
        result matches Ok(v) ==> spec_decrypt(key@, iv@, data@) == Ok::<Seq<u8>, CipherError>(v@),
        result matches Err(e) ==> spec_decrypt(key@, iv@, data@) == Err::<Seq<u8>, CipherError>(
            e,
        ),
        data@.len() % 16 != 0 ==> result == Err::<Vec<u8>, CipherError>(
            CipherError::InvalidLength,
        ),
        forall|p: Seq<u8>|
            data@ == #[trigger] spec_encrypt(key@, iv@, p) ==> (result matches Ok(v) && v@ == p),
{
    let mut engine = DecryptEngine::new(key, iv, data);
    let mut m: Vec<u8> = Vec::new();
    loop
        invariant
            dec_state(engine) is Some <==> data@.len() % 16 == 0,
            data@.len() % 16 == 0 ==> (dec_state(engine) is Some && aes_cbc_dec_raw(
                key@,
                iv@,
                data@,
            ) == m@ + dec_state(engine).unwrap() && aes_cbc_dec_raw(key@, iv@, data@).len()
                == data@.len()),
            forall|p: Seq<u8>|
                p.len() % 16 == 0 && data@ == #[trigger] aes_cbc_enc_raw(key@, iv@, p)
                    ==> (aes_cbc_dec_raw(key@, iv@, data@) == p && data@.len() % 16 == 0),
        ensures
            data@.len() % 16 == 0,
            m@ == aes_cbc_dec_raw(key@, iv@, data@),
            m@.len() == data@.len(),
            forall|p: Seq<u8>|
                p.len() % 16 == 0 && data@ == #[trigger] aes_cbc_enc_raw(key@, iv@, p)
                    ==> aes_cbc_dec_raw(key@, iv@, data@) == p,
        decreases dec_togo(engine),
    {
        match engine.step() {
            Ok((mut chunk, done)) => {
                m.append(&mut chunk);
                if done {
                    proof {
                        assert(m@ =~= aes_cbc_dec_raw(key@, iv@, data@));
                    }
                    break ;
                }
            },
            Err(e) => {
                proof {
                    assert forall|p: Seq<u8>|
                        data@ != #[trigger] spec_encrypt(key@, iv@, p) by {
                        if p.len() > 0 {
                            lemma_pkcs_pad_len(p);
                        }
                    }
                }
                return Err(e);
            },
        }
    }
    if m.len() == 0 {
        proof {
            assert forall|p: Seq<u8>|
                data@ == #[trigger] spec_encrypt(key@, iv@, p) implies m@ == p by {
                if p.len() > 0 {
                    lemma_pkcs_pad_len(p);
                }
            }
        }
        return Ok(m);
    }
    match pkcs_strip(m.as_slice()) {
        Ok(v) => {
            proof {
                assert forall|p: Seq<u8>|
                    data@ == #[trigger] spec_encrypt(key@, iv@, p) implies v@ == p by {
                    if p.len() > 0 {
                        lemma_pkcs_pad_len(p);
                        lemma_pkcs_strip_of_pad(p);
                    }
                }
            }
            Ok(v)
        },
        Err(e) => {
            proof {
                assert forall|p: Seq<u8>|
                    data@ != #[trigger] spec_encrypt(key@, iv@, p) by {
                    if p.len() > 0 {
                        lemma_pkcs_pad_len(p);
                        lemma_pkcs_strip_of_pad(p);
                    }
                }
            }
            Err(e)
        },
    }
}

} // verus!
