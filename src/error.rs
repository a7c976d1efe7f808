use vstd::prelude::*;

verus! {

/// Every way in which decoding a container can fail.
#[derive(Debug, Clone, Copy, PartialEq, Eq, Structural)]
pub enum NcmError {
    /// The first eight bytes are not the container magic.
    BadMagic,
    /// The input ended inside a field, a frame or a skipped gap.
    Truncated,
    /// The unwrapped content key does not start with its fixed prefix.
    InvalidKeyPrefix,
    /// The deobfuscated comment frame does not start with its fixed prefix.
    InvalidCommentPrefix,
    /// The decrypted metadata does not start with `music:`.
    InvalidMetaPrefix,
    /// AES decryption failed: bad block length or bad PKCS#7 padding.
    PaddingError,
    /// The comment frame does not hold valid base64.
    Base64Error,
}

impl NcmError {
    /// A short human-readable description of the error.
    pub fn message(&self) -> (r: String)
        ensures
            r@ == error_message(*self),
    {
        match self {
            NcmError::BadMagic => "file header mismatch".to_string(),
            NcmError::Truncated => "unexpected end of input".to_string(),
            NcmError::InvalidKeyPrefix => "invalid ncm key".to_string(),
            NcmError::InvalidCommentPrefix => "invalid comment".to_string(),
            NcmError::InvalidMetaPrefix => "invalid meta".to_string(),
            NcmError::PaddingError => "invalid padding".to_string(),
            NcmError::Base64Error => "invalid base64".to_string(),
        }
    }
}

/// The text that `NcmError::message` gives for each error.
pub open spec fn error_message(e: NcmError) -> Seq<char> {
    match e {
        NcmError::BadMagic => "file header mismatch"@,
        NcmError::Truncated => "unexpected end of input"@,
        NcmError::InvalidKeyPrefix => "invalid ncm key"@,
        NcmError::InvalidCommentPrefix => "invalid comment"@,
        NcmError::InvalidMetaPrefix => "invalid meta"@,
        NcmError::PaddingError => "invalid padding"@,
        NcmError::Base64Error => "invalid base64"@,
    }
}

} // verus!

verus! {

/// The bytes held by an optional byte vector.
pub open spec fn opt_bytes(o: Option<Vec<u8>>) -> Option<Seq<u8>> {
    match o {
        Some(v) => Some(v@),
        None => None,
    }
}

/// The bytes held by a byte vector result.
pub open spec fn res_bytes(r: Result<Vec<u8>, NcmError>) -> Result<Seq<u8>, NcmError> {
    match r {
        Ok(v) => Ok(v@),
        Err(e) => Err(e),
    }
}

} // verus!
