//! Decoder for the NCM encrypted audio container: header and frame parsing,
//! key unwrapping, the NCM keystream, and a decrypting audio reader.
pub mod audio;
pub mod decoder;
pub mod error;
pub mod frame;
pub mod image;
pub mod key;
pub mod music_id;
pub mod ncm_rc4;
