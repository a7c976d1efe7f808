use aes::cipher::{block_padding::Pkcs7, BlockEncryptMut, KeyInit};
use ncmc::audio::Type as AudioType;
use ncmc::decoder::Decoder;
use ncmc::error::NcmError;
use ncmc::image::Type as ImageType;
use ncmc::key::CORE_KEY;

const KEY_FRAME: [u8; 128] = [
    44, 206, 213, 235, 105, 234, 251, 20, 85, 13, 69, 191, 97, 221, 23, 29, 18, 21, 246, 51, 21,
    69, 239, 181, 244, 6, 32, 104, 211, 135, 179, 202, 61, 32, 50, 218, 231, 3, 85, 33, 145, 113,
    162, 72, 254, 143, 136, 190, 39, 101, 206, 78, 98, 101, 116, 215, 145, 212, 45, 190, 39, 210,
    209, 192, 188, 100, 141, 243, 48, 248, 186, 138, 64, 32, 93, 82, 40, 16, 113, 0, 51, 165, 195,
    243, 34, 188, 96, 243, 168, 178, 144, 252, 165, 149, 122, 109, 247, 164, 233, 37, 82, 40, 214,
    0, 159, 5, 178, 114, 243, 218, 126, 60, 20, 5, 164, 198, 166, 244, 88, 15, 95, 132, 197, 175,
    252, 215, 77, 30,
];

const CONTENT_KEY: &[u8] = b"143621215014397E7fT49x7dof9OKCgg9cdvhEuezy3iZCL1nFvBFd1T4uSktAJKmwZXsijPbijliionVUXXg9plTbXEclAE9Lb";

const COMMENT: &[u8] = b"163 key(Don't modify):L64FU3W4YxX3ZFTmbZ+8/UR5O76NR+EAUgvWTIwJWpvcjmuEV52/6+VkX6oTlpPnD9GAL8pIt8cKuPSZpgbd6lm6aKAMrLJq4RSmmvJjBn/uU+CF2v+0QISaPrlQrQz+EDUnJkPGxwCM55NlSN5PzD+PgvUJhRQz0WY1aEvG8BRhYRnAHE+lx+EZnzD6UUTPbf/PnKHRhtwzcHkCE1cnoHSC1BkP7QQXkCMKtewr7mOlVhZnAviA0LDTXySmgokSrCj3oGaCLccWGRM3gkg6gPoBhlGkKRrUmOcglE63VjqP4lrj0b4WiAW/3HP2nuOCdAC2MHQFAhNFBs1Eku1qn8/KuBOZATD/BKsJDzADRt+GpwaW8dLD4N2Us1XNOGuMPESxAAyqWWLP19KExF4ZmdayT5ekodF+txkh0/U+CAfan3KtxAfbmGBdoE0HyKgpWlRdSoQ0YMQbKgMVyCE71vIERsKfTXE/54xUTW+U/4r+10jKhnHb5Ldam5r1seEYWiuNB1LpRmM3gPpUncYfA0NqqNyOh76YQTqurnkI3yDH9NfkcA5iR/ptOIZDvaefbZ3qaT7mOhrul58uWc61GfBZqEdiF77PsqVcyN8k2nr1VZqmLWyskTd0ahRkrJ5q";

const META_JSON: &str = r#"{"musicId":28254848,"musicName":"「わたしは阿良々木さんと会えたんですから」","artist":[["神前暁",14629]],"albumId":2759689,"album":"「傾物語」劇伴音楽集 & あとがたり","albumPicDocId":"109951166198486505","albumPic":"https://p3.music.126.net/P3xnM1N0Cebcs3DHSUk5QA==/109951166198486505.jpg","bitrate":320000,"mp3DocId":"885f47d55947dbaea147279f20c86c9b","duration":90331,"mvId":0,"alias":[],"transNames":[],"format":"mp3"}"#;

/// The keystream table, derived here independently of the library.
fn table_of(key: &[u8]) -> [u8; 256] {
    let mut s: [u8; 256] = core::array::from_fn(|i| i as u8);
    let mut j = 0usize;
    for i in 0..256 {
        j = (j + s[i] as usize + key[i % key.len()] as usize) & 0xff;
        s.swap(i, j);
    }
    core::array::from_fn(|i| {
        let k1 = (i + 1) & 0xff;
        let k2 = (k1 + s[k1] as usize) & 0xff;
        s[(s[k1] as usize + s[k2] as usize) & 0xff]
    })
}

fn encrypt_audio(key: &[u8], plain: &[u8]) -> Vec<u8> {
    let t = table_of(key);
    plain.iter().enumerate().map(|(i, b)| b ^ t[i % 256]).collect()
}

fn push_frame(out: &mut Vec<u8>, payload: &[u8]) {
    out.extend_from_slice(&(payload.len() as u32).to_le_bytes());
    out.extend_from_slice(payload);
}

fn container(comment: &[u8], image: &[u8], offset: u32, audio: &[u8]) -> Vec<u8> {
    let mut out = b"CTENFDAM".to_vec();
    out.extend_from_slice(&[0xAB, 0xCD]);
    push_frame(&mut out, &KEY_FRAME);
    push_frame(&mut out, comment);
    out.extend_from_slice(&[1, 2, 3, 4, 5]);
    out.extend_from_slice(&offset.to_le_bytes());
    push_frame(&mut out, image);
    if offset as usize > image.len() {
        out.extend(vec![0xEE; offset as usize - image.len()]);
    }
    out.extend_from_slice(audio);
    out
}

fn comment_frame() -> Vec<u8> {
    COMMENT.iter().map(|b| b ^ 0x63).collect()
}

fn flac_plain(len: usize) -> Vec<u8> {
    let mut plain = b"fLaC\x00\x00\x00\x22".to_vec();
    plain.extend((0..len - 8).map(|i| (i * 13 % 256) as u8));
    plain
}

fn read_all(decoder: &mut Decoder) -> Vec<u8> {
    let mut out = vec![];
    loop {
        let chunk = decoder.audio.read(100);
        if chunk.is_empty() {
            return out;
        }
        out.extend(chunk);
    }
}

#[test]
fn decodes_synthetic_container() {
    let plain = flac_plain(300);
    let input = container(&comment_frame(), &[], 0, &encrypt_audio(CONTENT_KEY, &plain));
    let mut decoder = Decoder::try_new(input).unwrap();
    assert_eq!(&decoder.key[..], CONTENT_KEY);
    assert_eq!(&decoder.meta[..], META_JSON.as_bytes());
    assert_eq!(&decoder.comment[..], COMMENT);
    assert!(decoder.image.is_none());
    assert_eq!(decoder.audio.audio_type(), AudioType::Flac);
    assert_eq!(decoder.audio.ext(), "flac");
    assert_eq!(read_all(&mut decoder), plain);
}

#[test]
fn decodes_image_and_padding() {
    let mut image = b"GIF89a".to_vec();
    image.extend(vec![0x11; 30]);
    let plain = flac_plain(40);
    let input = container(&comment_frame(), &image, 50, &encrypt_audio(CONTENT_KEY, &plain));
    let mut decoder = Decoder::try_new(input).unwrap();
    let cover = decoder.image.as_ref().unwrap();
    assert_eq!(cover.image_type(), ImageType::Gif);
    assert_eq!(cover.ext(), "gif");
    assert_eq!(cover.data(), &image);
    assert_eq!(read_all(&mut decoder), plain);
}

#[test]
fn offset_below_image_length_skips_nothing() {
    let image = vec![0x22; 24];
    let plain = flac_plain(30);
    let input = container(&comment_frame(), &image, 3, &encrypt_audio(CONTENT_KEY, &plain));
    let mut decoder = Decoder::try_new(input).unwrap();
    assert_eq!(decoder.image.as_ref().unwrap().image_type(), ImageType::Unknown);
    assert_eq!(read_all(&mut decoder), plain);
}

#[test]
fn empty_comment_gives_empty_meta() {
    let mut plain = b"ID3\x04".to_vec();
    plain.extend(vec![0; 20]);
    let input = container(&[], &[], 0, &encrypt_audio(CONTENT_KEY, &plain));
    let mut decoder = Decoder::try_new(input).unwrap();
    assert!(decoder.comment.is_empty());
    assert!(decoder.meta.is_empty());
    assert_eq!(decoder.audio.audio_type(), AudioType::Mp3);
    assert_eq!(read_all(&mut decoder), plain);
}

#[test]
fn bad_magic_is_rejected() {
    let plain = flac_plain(30);
    let good = container(&comment_frame(), &[], 0, &encrypt_audio(CONTENT_KEY, &plain));
    for i in 0..8 {
        let mut bad = good.clone();
        bad[i] ^= 0x20;
        assert!(matches!(Decoder::try_new(bad), Err(NcmError::BadMagic)));
    }
    assert!(matches!(Decoder::try_new(b"CTENFDAX".to_vec()), Err(NcmError::BadMagic)));
    assert!(matches!(Decoder::try_new(b"CTENFDA".to_vec()), Err(NcmError::Truncated)));
    let mut reserved = good.clone();
    reserved[8] = 0;
    reserved[9] = 0;
    assert!(Decoder::try_new(reserved).is_ok());
}

#[test]
fn every_cut_before_audio_head_is_truncated() {
    let plain = flac_plain(30);
    let image = vec![0x33; 10];
    let good = container(&comment_frame(), &image, 16, &encrypt_audio(CONTENT_KEY, &plain));
    let audio_start = good.len() - plain.len();
    for n in 0..audio_start + 12 {
        let r = Decoder::try_new(good[..n].to_vec());
        assert!(matches!(r, Err(NcmError::Truncated)), "cut at {}", n);
    }
    assert!(Decoder::try_new(good[..audio_start + 12].to_vec()).is_ok());
}

#[test]
fn bad_frames_are_rejected() {
    let plain = flac_plain(30);
    let cipher = encrypt_audio(CONTENT_KEY, &plain);

    let mut input = b"CTENFDAM\x00\x00".to_vec();
    push_frame(&mut input, &KEY_FRAME[..127]);
    push_frame(&mut input, &comment_frame());
    assert!(matches!(Decoder::try_new(input), Err(NcmError::PaddingError)));

    let sealed = ecb::Encryptor::<aes::Aes128>::new((&CORE_KEY).into())
        .encrypt_padded_vec_mut::<Pkcs7>(b"not the key prefix");
    let key_frame: Vec<u8> = sealed.iter().map(|b| b ^ 0x64).collect();
    let mut input = b"CTENFDAM\x00\x00".to_vec();
    push_frame(&mut input, &key_frame);
    push_frame(&mut input, &comment_frame());
    assert!(matches!(Decoder::try_new(input), Err(NcmError::InvalidKeyPrefix)));

    let mut comment = comment_frame();
    comment[0] ^= 1;
    let input = container(&comment, &[], 0, &cipher);
    assert!(matches!(Decoder::try_new(input), Err(NcmError::InvalidCommentPrefix)));

    let mut comment = comment_frame();
    comment[30] = b'!' ^ 0x63;
    let input = container(&comment, &[], 0, &cipher);
    assert!(matches!(Decoder::try_new(input), Err(NcmError::Base64Error)));
}

#[test]
fn error_messages() {
    assert_eq!(NcmError::BadMagic.message(), "file header mismatch");
    assert_eq!(NcmError::Truncated.message(), "unexpected end of input");
    assert_eq!(NcmError::Base64Error.message(), "invalid base64");
}
