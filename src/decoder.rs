use vstd::prelude::*;
use crate::audio::{Audio, AudioView, audio_type_of, plain};
use crate::error::NcmError;
use crate::frame::{FrameReader, frame_end, frame_payload, has_frame, le_u32_at};
use crate::image::{self, Image, image_type_of};
use crate::key::{
    COMMENT_XOR, content_key_of, meta_of, unwrap_content_key, unwrap_meta, xor_all, xor_bytes,
};
use crate::ncm_rc4::keystream_table;

verus! {

/// The first eight bytes of every container: "CTENFDAM".
pub const MAGIC: [u8; 8] = [0x43, 0x54, 0x45, 0x4E, 0x46, 0x44, 0x41, 0x4D];

/// What decoding a container yields.
pub struct DecodedView {
    /// The content key.
    pub key: Seq<u8>,
    /// The deobfuscated comment frame (empty where the frame is empty).
    pub comment: Seq<u8>,
    /// The metadata JSON (empty where the comment frame is empty).
    pub meta: Seq<u8>,
    /// The cover image's format and bytes, where the image frame is not empty.
    pub image: Option<(image::Type, Seq<u8>)>,
    /// The decrypting audio stream, not read yet.
    pub audio: AudioView,
}

/// A fresh audio stream over the encrypted payload `rest` under `key`.
pub open spec fn audio_view_of(key: Seq<u8>, rest: Seq<u8>) -> AudioView {
    AudioView {
        kind: audio_type_of(plain(keystream_table(key), rest).take(12)),
        table: keystream_table(key),
        data: rest,
        pos: 0,
    }
}

/// Where the audio payload starts, for an image frame at `p` and a declared
/// `offset` from the end of that frame: the image frame, then the padding of
/// `offset - image length` bytes where that is positive.
pub open spec fn audio_start(b: Seq<u8>, offset: int, p: int) -> int {
    let img_len = le_u32_at(b, p);
    if offset > img_len {
        frame_end(b, p) + offset - img_len
    } else {
        frame_end(b, p)
    }
}

/// Decoding from the end of the comment frame at `p`: five reserved bytes,
/// the offset field, the image frame, the padding, and at least twelve audio bytes.
pub open spec fn decode_tail(
    b: Seq<u8>,
    p: int,
    key: Seq<u8>,
    comment: Seq<u8>,
    meta: Seq<u8>,
) -> Result<DecodedView, NcmError> {
    if p + 9 > b.len() {
        Err(NcmError::Truncated)
    } else if !has_frame(b, p + 9) {
        Err(NcmError::Truncated)
    } else {
        let q = p + 9;
        let t = audio_start(b, le_u32_at(b, p + 5), q);
        if t + 12 > b.len() {
            Err(NcmError::Truncated)
        } else {
            Ok(
                DecodedView {
                    key,
                    comment,
                    meta,
                    image: if le_u32_at(b, q) > 0 {
                        Some((image_type_of(frame_payload(b, q)), frame_payload(b, q)))
                    } else {
                        None
                    },
                    audio: audio_view_of(key, b.subrange(t, b.len() as int)),
                },
            )
        }
    }
}

/// Decoding from the comment frame at `p`, with the content key known. An
/// empty comment frame gives empty metadata and is not unwrapped.
pub open spec fn decode_comment(
    b: Seq<u8>,
    p: int,
    key: Seq<u8>,
) -> Result<DecodedView, NcmError> {
    if !has_frame(b, p) {
        Err(NcmError::Truncated)
    } else {
        let blob = frame_payload(b, p);
        if blob.len() == 0 {
            decode_tail(b, frame_end(b, p), key, Seq::empty(), Seq::empty())
        } else {
            match meta_of(blob) {
                Err(e) => Err(e),
                Ok(meta) => decode_tail(b, frame_end(b, p), key, xor_all(blob, COMMENT_XOR), meta),
            }
        }
    }
}

/// What decoding the container `b` gives: the magic, two reserved bytes, the
/// key frame, then the rest as `decode_comment` says.
pub open spec fn decode(b: Seq<u8>) -> Result<DecodedView, NcmError> {
    if b.len() < 8 {
        Err(NcmError::Truncated)
    } else if b.take(8) != MAGIC@ {
        Err(NcmError::BadMagic)
    } else if !has_frame(b, 10) {
        Err(NcmError::Truncated)
    } else {
        match content_key_of(frame_payload(b, 10)) {
            Err(e) => Err(e),
            Ok(key) => decode_comment(b, frame_end(b, 10), key),
        }
    }
}

/// Decoding a container of at least eight bytes fails with `BadMagic` exactly
/// when its first eight bytes differ from the magic.
pub proof fn lemma_bad_magic_iff(b: Seq<u8>)
    requires
        b.len() >= 8,
    ensures
        (decode(b) == Err::<DecodedView, NcmError>(NcmError::BadMagic)) <==> (b.take(8) != MAGIC@),
{
    if b.take(8) == MAGIC@ && has_frame(b, 10) && content_key_of(frame_payload(b, 10)) is Ok {
        let blob = frame_payload(b, frame_end(b, 10));
        assert(meta_of(blob) != Err::<Seq<u8>, NcmError>(NcmError::BadMagic));
    }
}

/// Two byte sequences that agree below `n` agree on every field that ends by `n`.
proof fn lemma_prefix_fields(b: Seq<u8>, c: Seq<u8>, n: int, p: int)
    requires
        0 <= p,
        p + 4 <= n <= c.len(),
        n <= b.len(),
        c == b.take(n),
    ensures
        le_u32_at(c, p) == le_u32_at(b, p),
        frame_end(c, p) <= n ==> frame_payload(c, p) == frame_payload(b, p),
{
    if frame_end(c, p) <= n {
        assert(frame_payload(c, p) =~= frame_payload(b, p));
    }
}

/// Cutting a well-formed container anywhere before the twelfth byte of its
/// audio payload (inside the header, any length field, any frame or the
/// padding) makes decoding fail with `Truncated`.
pub proof fn lemma_truncated_container(b: Seq<u8>, n: nat)
    requires
        decode(b) is Ok,
        n < b.len() - decode(b)->Ok_0.audio.data.len() + 12,
    ensures
        decode(b.take(n as int)) == Err::<DecodedView, NcmError>(NcmError::Truncated),
{
    let c = b.take(n as int);
    let n = n as int;
    if n < 8 {
        return;
    }
    assert(c.take(8) =~= b.take(8));
    if !has_frame(c, 10) {
        return;
    }
    lemma_prefix_fields(b, c, n, 10);
    let key = content_key_of(frame_payload(b, 10))->Ok_0;
    let p = frame_end(b, 10);
    if !has_frame(c, p) {
        return;
    }
    lemma_prefix_fields(b, c, n, p);
    let blob = frame_payload(b, p);
    let e = frame_end(b, p);
    if e + 9 > n {
        return;
    }
    lemma_prefix_fields(b, c, n, e + 5);
    let q = e + 9;
    if !has_frame(c, q) {
        return;
    }
    lemma_prefix_fields(b, c, n, q);
    assert(audio_start(c, le_u32_at(c, e + 5), q) == audio_start(b, le_u32_at(b, e + 5), q));
}

/// A decoded container.
#[derive(Debug)]
pub struct Decoder {
    /// The content key.
    pub key: Vec<u8>,
    /// The deobfuscated comment frame.
    pub comment: Vec<u8>,
    /// The metadata JSON.
    pub meta: Vec<u8>,
    /// The cover image, if the container holds one.
    pub image: Option<Image>,
    /// The decrypting audio stream.
    pub audio: Audio,
}

impl View for Decoder {
    type V = DecodedView;

    open spec fn view(&self) -> DecodedView {
        DecodedView {
            key: self.key@,
            comment: self.comment@,
            meta: self.meta@,
            image: match self.image {
                Some(i) => Some(i@),
                None => None,
            },
            audio: self.audio@,
        }
    }
}

/// Whether `head` is the container magic.
fn is_magic(head: &[u8]) -> (r: bool)
    requires
        head@.len() == 8,
    ensures
        r == (head@ == MAGIC@),
{
    let mut i: usize = 0;
    while i < 8
        invariant
            i <= 8,
            head@.len() == 8,
            forall|k: int| 0 <= k < i ==> head@[k] == MAGIC@[k],
        decreases 8 - i,
    {
        if head[i] != MAGIC[i] {
            return false;
        }
        i = i + 1;
    }
    assert(head@ =~= MAGIC@);
    true
}

impl Decoder {
    /// Decodes the container `input`, leaving the audio stream unread.
    pub fn try_new(input: Vec<u8>) -> (r: Result<Decoder, NcmError>)
        ensures
            match r {
                Ok(d) => decode(input@) == Ok::<DecodedView, NcmError>(d@),
                Err(e) => decode(input@) == Err::<DecodedView, NcmError>(e),
            },
    {
        let ghost b = input@;
        let mut reader = FrameReader::new(input);
        let head = reader.read_exact(8)?;
        if !is_magic(head.as_slice()) {
            assert(b.take(8) =~= head@);
            return Err(NcmError::BadMagic);
        }
        assert(b.take(8) =~= head@);
        reader.skip(2)?;
        let (key_blob, _) = reader.read_frame()?;
        let key = unwrap_content_key(key_blob.as_slice())?;
        let (comment_blob, comment_len) = reader.read_frame()?;
        let ghost p = reader.pos();
        let mut comment: Vec<u8> = Vec::new();
        let mut meta: Vec<u8> = Vec::new();
        if comment_len > 0 {
            meta = unwrap_meta(comment_blob.as_slice())?;
            comment = xor_bytes(comment_blob.as_slice(), COMMENT_XOR);
        }
        reader.skip(5)?;
        let offset = reader.read_u32_le()?;
        let (image_bytes, img_len) = reader.read_frame()?;
        if offset > img_len {
            reader.skip((offset - img_len) as usize)?;
        }
        let image = if img_len > 0 {
            Some(Image::from(image_bytes))
        } else {
            None
        };
        let audio = Audio::try_new(reader.into_rest(), key.as_slice())?;
        Ok(Decoder { key, comment, meta, image, audio })
    }
}

} // verus!
