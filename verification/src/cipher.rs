//! The cipher transforms applied to each file's bytes.
//!
//! GCM output is framed as `ciphertext || nonce`: the fresh 12-byte nonce
//! of each encryption is appended — not prepended — to the ciphertext, and
//! decryption splits it back off the tail.  ECB output is the raw padded
//! block-cipher result with no appended metadata; that mode carries no
//! integrity tag, so a wrong key or corrupted ciphertext cannot be
//! detected there.

use vstd::prelude::*;
use aes_gcm::Aes256Gcm;
use aes_gcm::KeyInit;
use aes_gcm::aead::Aead;
use aes_gcm::aead::Generate;
use byte_aes::Aes256Cryptor;
use zeroize::Zeroize;
use crate::paths::bytes_range;

verus! {

/// Why a per-file cipher transform failed.
#[derive(Clone, Copy, Debug, PartialEq, Eq, Structural)]
pub enum CipherError {
    /// GCM sealing failed: the plaintext exceeded the mode's limit.
    EncryptFailed,
    /// The system random generator yielded no nonce.
    NonceUnavailable,
    /// GCM authentication failed: wrong key, wrong nonce or altered bytes.
    AuthFailed,
    /// A GCM input shorter than a nonce cannot hold a ciphertext.
    TooShort,
    /// An ECB input was not whole blocks, or its padding byte was invalid.
    BadPadding,
}

/// The AES-256-GCM ciphertext (tag included) that sealing `msg` under
/// `key` with `nonce` yields.
pub uninterp spec fn gcm_seal_of(key: Seq<u8>, nonce: Seq<u8>, msg: Seq<u8>) -> Seq<u8>;

/// What AES-256-GCM decryption of `ct` under `key` with `nonce` yields:
/// the plaintext when the tag authenticates, nothing otherwise.
pub uninterp spec fn gcm_open_of(key: Seq<u8>, nonce: Seq<u8>, ct: Seq<u8>) -> Option<Seq<u8>>;

/// The padded AES-256-ECB ciphertext of `msg` under `key`.
pub uninterp spec fn ecb_seal_of(key: Seq<u8>, msg: Seq<u8>) -> Seq<u8>;

/// What AES-256-ECB decryption with padding removal yields for `ct` under
/// `key`: nothing when `ct` is not whole blocks or the padding byte is
/// invalid.
pub uninterp spec fn ecb_open_of(key: Seq<u8>, ct: Seq<u8>) -> Option<Seq<u8>>;

/// Relies on aes_gcm's `Aead::encrypt` for `Aes256Gcm`: the ciphertext is
/// a function of key, nonce and message alone, 16 tag bytes longer than
/// the message, and decrypting it under the same key and nonce returns the
/// message.
#[verifier::external_body]
fn gcm_seal(key: &Vec<u8>, nonce: &Vec<u8>, msg: &Vec<u8>) -> (r: Result<Vec<u8>, CipherError>)
    requires
        key@.len() == 32,
        nonce@.len() == 12,
    ensures
        r matches Ok(ct) ==> ct@ == gcm_seal_of(key@, nonce@, msg@),
        r matches Ok(ct) ==> ct@.len() == msg@.len() + 16,
        r matches Ok(ct) ==> gcm_open_of(key@, nonce@, ct@) == Some(msg@),
        r matches Err(e) ==> e == CipherError::EncryptFailed,
{
    let cipher = match Aes256Gcm::new_from_slice(key.as_slice()) {
        Ok(c) => c,
        Err(_) => return Err(CipherError::EncryptFailed),
    };
    let nonce_arr = match aes_gcm::Nonce::<aes_gcm::aead::consts::U12>::try_from(
        nonce.as_slice(),
    ) {
        Ok(n) => n,
        Err(_) => return Err(CipherError::EncryptFailed),
    };
    match cipher.encrypt(&nonce_arr, msg.as_slice()) {
        Ok(ct) => Ok(ct),
        Err(_) => Err(CipherError::EncryptFailed),
    }
}

/// Relies on aes_gcm's `Aead::decrypt` for `Aes256Gcm`: returns the
/// plaintext exactly when the appended tag authenticates under this key
/// and nonce, and fails otherwise.  Decryption inverts the keystream and
/// recomputes the tag from the ciphertext, so a success means the input
/// is exactly the sealing of the returned plaintext under this key and
/// nonce.
#[verifier::external_body]
fn gcm_open(key: &Vec<u8>, nonce: &Vec<u8>, ct: &Vec<u8>) -> (r: Result<Vec<u8>, CipherError>)
    requires
        key@.len() == 32,
        nonce@.len() == 12,
    ensures
        r matches Ok(pt) ==> gcm_open_of(key@, nonce@, ct@) == Some(pt@),
        r matches Ok(pt) ==> ct@ == gcm_seal_of(key@, nonce@, pt@),
        r matches Err(e) ==> gcm_open_of(key@, nonce@, ct@) is None && e == CipherError::AuthFailed,
{
    let cipher = match Aes256Gcm::new_from_slice(key.as_slice()) {
        Ok(c) => c,
        Err(_) => return Err(CipherError::AuthFailed),
    };
    let nonce_arr = match aes_gcm::Nonce::<aes_gcm::aead::consts::U12>::try_from(
        nonce.as_slice(),
    ) {
        Ok(n) => n,
        Err(_) => return Err(CipherError::AuthFailed),
    };
    match cipher.decrypt(&nonce_arr, ct.as_slice()) {
        Ok(pt) => Ok(pt),
        Err(_) => Err(CipherError::AuthFailed),
    }
}

/// Relies on the `Generate` impl for byte arrays (system RNG): 12 fresh
/// random bytes.  Nothing more is promised of a random value.
#[verifier::external_body]
fn gcm_generate_nonce() -> (r: Result<Vec<u8>, CipherError>)
    ensures
        r matches Ok(n) ==> n@.len() == 12,
        r matches Err(e) ==> e == CipherError::NonceUnavailable,
{
    match aes_gcm::Nonce::<aes_gcm::aead::consts::U12>::try_generate() {
        Ok(n) => Ok(n.to_vec()),
        Err(_) => Err(CipherError::NonceUnavailable),
    }
}

/// Relies on byte_aes's `Aes256Cryptor::encrypt`: pads the message to the
/// next whole block (a full extra block when already aligned) and encrypts
/// under AES-256-ECB; its own `decrypt` inverts the result.
#[verifier::external_body]
fn ecb_seal(key: &Vec<u8>, msg: &Vec<u8>) -> (r: Vec<u8>)
    requires
        key@.len() == 32,
    ensures
        r@ == ecb_seal_of(key@, msg@),
        r@.len() == msg@.len() + 16 - (msg@.len() % 16),
        ecb_open_of(key@, r@) == Some(msg@),
{
    let mut k = [0u8; 32];
    k.copy_from_slice(key.as_slice());
    let cryptor = Aes256Cryptor::new(k);
    k.zeroize();
    cryptor.encrypt(msg.clone())
}

/// Relies on byte_aes's `Aes256Cryptor::decrypt`: rejects input that is
/// empty or not whole blocks, strips the padding its encryption appended,
/// and cannot tell a wrong key from a right one when the final byte still
/// looks like padding.
#[verifier::external_body]
fn ecb_open(key: &Vec<u8>, ct: &Vec<u8>) -> (r: Result<Vec<u8>, CipherError>)
    requires
        key@.len() == 32,
    ensures
        r matches Ok(pt) ==> ecb_open_of(key@, ct@) == Some(pt@),
        r matches Err(e) ==> ecb_open_of(key@, ct@) is None && e == CipherError::BadPadding,
        ct@.len() % 16 != 0 ==> r is Err,
        ct@.len() == 0 ==> r is Err,
{
    let mut k = [0u8; 32];
    k.copy_from_slice(key.as_slice());
    let cryptor = Aes256Cryptor::new(k);
    k.zeroize();
    match cryptor.decrypt(ct.clone()) {
        Ok(pt) => Ok(pt),
        Err(_) => Err(CipherError::BadPadding),
    }
}

/// A GCM output file: the ciphertext with the nonce appended.
pub open spec fn gcm_file_spec(key: Seq<u8>, nonce: Seq<u8>, msg: Seq<u8>) -> Seq<u8> {
    gcm_seal_of(key, nonce, msg) + nonce
}

/// What decrypting a GCM output file yields: the trailing 12 bytes are
/// the nonce, the rest the ciphertext.  A file too short to hold a nonce
/// yields nothing.
pub open spec fn gcm_open_file_spec(key: Seq<u8>, file: Seq<u8>) -> Option<Seq<u8>> {
    if file.len() < 12 {
        None
    } else {
        gcm_open_of(key, file.skip(file.len() - 12), file.take(file.len() - 12))
    }
}

/// Encrypts one file's bytes for GCM mode: seals `msg` under a fresh
/// random nonce and appends the nonce.  A success is decryptable back to
/// exactly `msg` under the same key — the content half of the
/// encrypt-then-decrypt round trip.  The only failures are a dry random
/// generator and an over-long plaintext.
pub fn gcm_encrypt_file(msg: &Vec<u8>, key: &Vec<u8>) -> (r: Result<Vec<u8>, CipherError>)
    requires
        key@.len() == 32,
    ensures
        r matches Ok(out) ==> exists|n: Seq<u8>|
            n.len() == 12 && out@ == gcm_file_spec(key@, n, msg@),
        r matches Ok(out) ==> gcm_open_file_spec(key@, out@) == Some(msg@),
        r matches Ok(out) ==> out@.len() == msg@.len() + 28,
        r matches Err(e) ==> e == CipherError::NonceUnavailable || e == CipherError::EncryptFailed,
{
    let nonce = match gcm_generate_nonce() {
        Ok(n) => n,
        Err(e) => return Err(e),
    };
    let mut out = match gcm_seal(key, &nonce, msg) {
        Ok(ct) => ct,
        Err(e) => return Err(e),
    };
    let ghost ct_view = out@;
    out.extend_from_slice(nonce.as_slice());
    proof {
        assert(out@ =~= ct_view + nonce@);
        assert(out@.skip(out@.len() - 12) =~= nonce@);
        assert(out@.take(out@.len() - 12) =~= ct_view);
    }
    Ok(out)
}

/// Decrypts one GCM output file: splits the trailing 12-byte nonce off
/// and opens the rest.  A success returns the one plaintext whose sealing
/// under the split-off nonce is the input — the file is exactly what
/// encrypting the result would frame.  An authentication failure — wrong
/// key, wrong nonce, altered bytes — yields an error and no output; input
/// shorter than a nonce is rejected as such.
pub fn gcm_decrypt_file(file: &Vec<u8>, key: &Vec<u8>) -> (r: Result<Vec<u8>, CipherError>)
    requires
        key@.len() == 32,
    ensures
        r matches Ok(pt) ==> gcm_open_file_spec(key@, file@) == Some(pt@),
        r matches Ok(pt) ==> file@.len() >= 12 && file@ == gcm_file_spec(
            key@,
            file@.skip(file@.len() - 12),
            pt@,
        ),
        r matches Err(e) ==> gcm_open_file_spec(key@, file@) is None,
        file@.len() < 12 ==> (r matches Err(e) && e == CipherError::TooShort),
        file@.len() >= 12 ==> (r matches Err(e) ==> e == CipherError::AuthFailed),
{
    if file.len() < 12 {
        return Err(CipherError::TooShort);
    }
    let split = file.len() - 12;
    let ct = bytes_range(file, 0, split);
    let nonce = bytes_range(file, split, file.len());
    proof {
        assert(nonce@ =~= file@.skip(file@.len() - 12));
        assert(ct@ =~= file@.take(file@.len() - 12));
    }
    let r = gcm_open(key, &nonce, &ct);
    proof {
        if r is Ok {
            assert(file@ =~= gcm_seal_of(key@, nonce@, r->Ok_0@) + nonce@);
        }
    }
    r
}

/// Encrypts one file's bytes for ECB mode.  This cannot fail, and the
/// result decrypts back to exactly `msg` under the same key.
pub fn ecb_encrypt_file(msg: &Vec<u8>, key: &Vec<u8>) -> (r: Vec<u8>)
    requires
        key@.len() == 32,
    ensures
        r@ == ecb_seal_of(key@, msg@),
        r@.len() == msg@.len() + 16 - (msg@.len() % 16),
        ecb_open_of(key@, r@) == Some(msg@),
{
    ecb_seal(key, msg)
}

/// Decrypts one ECB output file.  Without an integrity tag, a wrong key
/// cannot reliably be told from a right one: an error here only means the
/// input was not whole blocks or its padding byte was invalid.
pub fn ecb_decrypt_file(ct: &Vec<u8>, key: &Vec<u8>) -> (r: Result<Vec<u8>, CipherError>)
    requires
        key@.len() == 32,
    ensures
        r matches Ok(pt) ==> ecb_open_of(key@, ct@) == Some(pt@),
        r matches Err(e) ==> ecb_open_of(key@, ct@) is None && e == CipherError::BadPadding,
        ct@.len() % 16 != 0 ==> r is Err,
        ct@.len() == 0 ==> r is Err,
{
    ecb_open(key, ct)
}

/// The nonce framing loses nothing: a GCM output file built from any
/// 12-byte nonce opens back to the message, provided sealing and opening
/// invert each other for those values — which every successful seal
/// guarantees.
pub proof fn lemma_gcm_frame_round_trip(key: Seq<u8>, nonce: Seq<u8>, msg: Seq<u8>)
    requires
        nonce.len() == 12,
        gcm_open_of(key, nonce, gcm_seal_of(key, nonce, msg)) == Some(msg),
    ensures
        gcm_open_file_spec(key, gcm_file_spec(key, nonce, msg)) == Some(msg),
{
    let file = gcm_file_spec(key, nonce, msg);
    assert(file.skip(file.len() - 12) =~= nonce);
    assert(file.take(file.len() - 12) =~= gcm_seal_of(key, nonce, msg));
}

} // verus!
