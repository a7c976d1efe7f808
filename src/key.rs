use vstd::prelude::*;
use aes::cipher::block_padding::Pkcs7;
use aes::cipher::{BlockDecryptMut, KeyInit};
use base64::Engine;
use crate::error::{NcmError, opt_bytes, res_bytes};

verus! {

/// AES key that seals the content key ("hzHRAmso5kInbaxW").
pub const CORE_KEY: [u8; 16] = [
    0x68, 0x7A, 0x48, 0x52, 0x41, 0x6D, 0x73, 0x6F, 0x35, 0x6B, 0x49, 0x6E, 0x62, 0x61, 0x78, 0x57,
];

/// AES key that seals the metadata ("#14ljk_!\\]&0U<'(").
pub const META_KEY: [u8; 16] = [
    0x23, 0x31, 0x34, 0x6C, 0x6A, 0x6B, 0x5F, 0x21, 0x5C, 0x5D, 0x26, 0x30, 0x55, 0x3C, 0x27, 0x28,
];

/// Byte that obfuscates the key frame.
pub const KEY_XOR: u8 = 0x64;

/// Byte that obfuscates the comment frame.
pub const COMMENT_XOR: u8 = 0x63;

/// Prefix of the unwrapped content key: "neteasecloudmusic".
pub const KEY_PREFIX: [u8; 17] = [
    0x6E, 0x65, 0x74, 0x65, 0x61, 0x73, 0x65, 0x63, 0x6C, 0x6F, 0x75,
    0x64, 0x6D, 0x75, 0x73, 0x69, 0x63,
];

/// Prefix of the deobfuscated comment frame: "163 key(Don't modify):".
pub const COMMENT_PREFIX: [u8; 22] = [
    0x31, 0x36, 0x33, 0x20, 0x6B, 0x65, 0x79, 0x28, 0x44, 0x6F, 0x6E,
    0x27, 0x74, 0x20, 0x6D, 0x6F, 0x64, 0x69, 0x66, 0x79, 0x29, 0x3A,
];

/// Prefix of the decrypted metadata: "music:".
pub const META_PREFIX: [u8; 6] = [0x6D, 0x75, 0x73, 0x69, 0x63, 0x3A];

/// What AES-128-ECB decryption under `key` followed by PKCS#7 unpadding gives
/// for `data`, or `None` where it fails.
pub uninterp spec fn aes128_ecb_pkcs7_decrypted(key: Seq<u8>, data: Seq<u8>) -> Option<Seq<u8>>;

/// What decoding `s` as standard, padded base64 gives, or `None` where `s` is
/// not valid base64.
pub uninterp spec fn base64_decoded(s: Seq<u8>) -> Option<Seq<u8>>;

/// The error of `decrypt_padded_vec_mut` (cipher's `block_padding::UnpadError`),
/// carried through opaque.
#[verifier::external_type_specification]
#[verifier::external_body]
pub struct ExUnpadError(aes::cipher::block_padding::UnpadError);

/// The error of `base64::Engine::decode`, carried through opaque.
#[verifier::external_type_specification]
#[verifier::external_body]
pub struct ExDecodeError(base64::DecodeError);

/// Relies on `ecb::Decryptor::<aes::Aes128>` built by `KeyInit::new` and on
/// `BlockDecryptMut::decrypt_padded_vec_mut::<Pkcs7>`: AES-128-ECB decryption
/// of `data` under `key`, then PKCS#7 unpadding; an error where the length is
/// not a whole number of blocks or the padding is malformed.
#[verifier::external_body]
fn aes128_ecb_decrypt(
    key: &[u8; 16],
    data: &[u8],
) -> (r: Result<Vec<u8>, aes::cipher::block_padding::UnpadError>)
    ensures
        match r {
            Ok(p) => aes128_ecb_pkcs7_decrypted(key@, data@) == Some(p@),
            Err(_) => aes128_ecb_pkcs7_decrypted(key@, data@) is None,
        },
{
    ecb::Decryptor::<aes::Aes128>::new(key.into()).decrypt_padded_vec_mut::<Pkcs7>(data)
}

/// Relies on `base64::Engine::decode` of the `STANDARD` engine (standard
/// alphabet, padded): the decoded bytes, or an error on malformed input.
#[verifier::external_body]
fn base64_decode(s: &[u8]) -> (r: Result<Vec<u8>, base64::DecodeError>)
    ensures
        match r {
            Ok(d) => base64_decoded(s@) == Some(d@),
            Err(_) => base64_decoded(s@) is None,
        },
{
    base64::engine::general_purpose::STANDARD.decode(s)
}

/// Every byte of `data` XORed with `k`.
pub open spec fn xor_all(data: Seq<u8>, k: u8) -> Seq<u8> {
    Seq::new(data.len(), |i: int| data[i] ^ k)
}

/// `data` without `prefix`, where `data` starts with `prefix`.
pub open spec fn without_prefix(data: Seq<u8>, prefix: Seq<u8>) -> Option<Seq<u8>> {
    if prefix.len() <= data.len() && data.take(prefix.len() as int) == prefix {
        Some(data.skip(prefix.len() as int))
    } else {
        None
    }
}

/// The plaintext of a key frame: XOR with `0x64`, then AES under the core key.
pub open spec fn decrypted_key(blob: Seq<u8>) -> Option<Seq<u8>> {
    aes128_ecb_pkcs7_decrypted(CORE_KEY@, xor_all(blob, KEY_XOR))
}

/// The content key sealed in a key frame.
pub open spec fn content_key_of(blob: Seq<u8>) -> Result<Seq<u8>, NcmError> {
    match decrypted_key(blob) {
        None => Err(NcmError::PaddingError),
        Some(p) => match without_prefix(p, KEY_PREFIX@) {
            Some(k) => Ok(k),
            None => Err(NcmError::InvalidKeyPrefix),
        },
    }
}

/// The metadata held by decrypted metadata ciphertext `ct`.
pub open spec fn meta_of_ciphertext(ct: Seq<u8>) -> Result<Seq<u8>, NcmError> {
    match aes128_ecb_pkcs7_decrypted(META_KEY@, ct) {
        None => Err(NcmError::PaddingError),
        Some(p) => match without_prefix(p, META_PREFIX@) {
            Some(m) => Ok(m),
            None => Err(NcmError::InvalidMetaPrefix),
        },
    }
}

/// The metadata sealed in a comment frame: XOR with `0x63`, the comment
/// prefix, base64, AES under the meta key, and the `music:` prefix.
pub open spec fn meta_of(blob: Seq<u8>) -> Result<Seq<u8>, NcmError> {
    match without_prefix(xor_all(blob, COMMENT_XOR), COMMENT_PREFIX@) {
        None => Err(NcmError::InvalidCommentPrefix),
        Some(b64) => match base64_decoded(b64) {
            None => Err(NcmError::Base64Error),
            Some(ct) => meta_of_ciphertext(ct),
        },
    }
}

/// Every byte of `data` XORed with `k`.
pub fn xor_bytes(data: &[u8], k: u8) -> (r: Vec<u8>)
    ensures
        r@ == xor_all(data@, k),
{
    let mut out: Vec<u8> = Vec::with_capacity(data.len());
    let mut i: usize = 0;
    while i < data.len()
        invariant
            i <= data@.len(),
            out@ == xor_all(data@.take(i as int), k),
        decreases data@.len() - i,
    {
        out.push(data[i] ^ k);
        i = i + 1;
        assert(out@ =~= xor_all(data@.take(i as int), k));
    }
    assert(data@.take(i as int) =~= data@);
    out
}

/// `data` without `prefix`, or `None` where `data` does not start with `prefix`.
pub fn strip_prefix(data: &[u8], prefix: &[u8]) -> (r: Option<Vec<u8>>)
    ensures
        opt_bytes(r) == without_prefix(data@, prefix@),
{
    if data.len() < prefix.len() {
        return None;
    }
    let mut i: usize = 0;
    while i < prefix.len()
        invariant
            i <= prefix@.len() <= data@.len(),
            data@.take(i as int) == prefix@.take(i as int),
        decreases prefix@.len() - i,
    {
        if data[i] != prefix[i] {
            assert(data@.take(prefix@.len() as int)[i as int] != prefix@[i as int]);
            return None;
        }
        i = i + 1;
        assert(data@.take(i as int) =~= prefix@.take(i as int));
    }
    assert(prefix@.take(i as int) =~= prefix@);
    let mut out: Vec<u8> = Vec::with_capacity(data.len() - prefix.len());
    let mut k: usize = prefix.len();
    while k < data.len()
        invariant
            prefix@.len() <= k <= data@.len(),
            out@ == data@.subrange(prefix@.len() as int, k as int),
        decreases data@.len() - k,
    {
        out.push(data[k]);
        k = k + 1;
        assert(out@ =~= data@.subrange(prefix@.len() as int, k as int));
    }
    Some(out)
}

/// Decrypts a key frame: XOR with `0x64`, then AES-128-ECB under the core key
/// with PKCS#7 unpadding. The plaintext still holds its prefix.
pub fn decrypt_key(data: &[u8]) -> (r: Result<Vec<u8>, NcmError>)
    ensures
        match r {
            Ok(p) => decrypted_key(data@) == Some(p@),
            Err(e) => e == NcmError::PaddingError && decrypted_key(data@) is None,
        },
{
    let x = xor_bytes(data, KEY_XOR);
    match aes128_ecb_decrypt(&CORE_KEY, x.as_slice()) {
        Ok(p) => Ok(p),
        Err(_) => Err(NcmError::PaddingError),
    }
}

/// Decrypts metadata ciphertext: AES-128-ECB under the meta key with PKCS#7
/// unpadding. The plaintext still holds its `music:` prefix.
pub fn decrypt_meta(data: &[u8]) -> (r: Result<Vec<u8>, NcmError>)
    ensures
        match r {
            Ok(p) => aes128_ecb_pkcs7_decrypted(META_KEY@, data@) == Some(p@),
            Err(e) => e == NcmError::PaddingError
                && aes128_ecb_pkcs7_decrypted(META_KEY@, data@) is None,
        },
{
    match aes128_ecb_decrypt(&META_KEY, data) {
        Ok(p) => Ok(p),
        Err(_) => Err(NcmError::PaddingError),
    }
}

/// Recovers the content key from a key frame.
pub fn unwrap_content_key(blob: &[u8]) -> (r: Result<Vec<u8>, NcmError>)
    ensures
        res_bytes(r) == content_key_of(blob@),
{
    let p = decrypt_key(blob)?;
    match strip_prefix(p.as_slice(), &KEY_PREFIX) {
        Some(k) => Ok(k),
        None => Err(NcmError::InvalidKeyPrefix),
    }
}

/// Recovers the metadata from metadata ciphertext (the base64-decoded part of
/// a comment frame).
pub fn unwrap_meta_ciphertext(ct: &[u8]) -> (r: Result<Vec<u8>, NcmError>)
    ensures
        res_bytes(r) == meta_of_ciphertext(ct@),
{
    let p = decrypt_meta(ct)?;
    match strip_prefix(p.as_slice(), &META_PREFIX) {
        Some(m) => Ok(m),
        None => Err(NcmError::InvalidMetaPrefix),
    }
}

/// Recovers the metadata (JSON bytes) from a comment frame.
pub fn unwrap_meta(blob: &[u8]) -> (r: Result<Vec<u8>, NcmError>)
    ensures
        res_bytes(r) == meta_of(blob@),
{
    let comment = xor_bytes(blob, COMMENT_XOR);
    let b64 = match strip_prefix(comment.as_slice(), &COMMENT_PREFIX) {
        Some(b) => b,
        None => return Err(NcmError::InvalidCommentPrefix),
    };
    let ct = match base64_decode(b64.as_slice()) {
        Ok(ct) => ct,
        Err(_) => return Err(NcmError::Base64Error),
    };
    unwrap_meta_ciphertext(ct.as_slice())
}

} // verus!
