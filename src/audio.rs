use vstd::prelude::*;
use crate::error::NcmError;
use crate::ncm_rc4::{NcmRc4, keystream_table};

verus! {

/// The audio formats told apart by their leading bytes.
#[derive(Debug, Clone, Copy, PartialEq, Eq, Structural)]
pub enum Type {
    Flac,
    Mp3,
    M4a,
    Ogg,
    Unknown,
}

/// The format of an audio stream whose first twelve decrypted bytes are `b`.
pub open spec fn audio_type_of(b: Seq<u8>) -> Type {
    if b[0] == 0x66 && b[1] == 0x4C && b[2] == 0x61 && b[3] == 0x43 {
        Type::Flac
    } else if b[0] == 0x4F && b[1] == 0x67 && b[2] == 0x67 && b[3] == 0x53 {
        Type::Ogg
    } else if b[0] == 0xFF && b[1] == 0xFB {
        Type::Mp3
    } else if b[0] == 0x49 && b[1] == 0x44 && b[2] == 0x33 {
        Type::Mp3
    } else if b[4] == 0x66 && b[5] == 0x74 && b[6] == 0x79 && b[7] == 0x70 && b[8] == 0x4D && b[9]
        == 0x34 && b[10] == 0x41 && b[11] == 0x20 {
        Type::M4a
    } else {
        Type::Unknown
    }
}

/// The file extension of each audio format.
pub open spec fn audio_ext(t: Type) -> Seq<char> {
    match t {
        Type::Flac => "flac"@,
        Type::Mp3 => "mp3"@,
        Type::M4a => "m4a"@,
        Type::Ogg => "ogg"@,
        Type::Unknown => "audio"@,
    }
}

impl Type {
    /// The file extension of the format ("audio" where it is unknown).
    pub fn ext(&self) -> (r: String)
        ensures
            r@ == audio_ext(*self),
    {
        match self {
            Type::Flac => "flac".to_string(),
            Type::Mp3 => "mp3".to_string(),
            Type::M4a => "m4a".to_string(),
            Type::Ogg => "ogg".to_string(),
            Type::Unknown => "audio".to_string(),
        }
    }
}

impl From<[u8; 12]> for Type {
    fn from(b: [u8; 12]) -> (r: Type)
        ensures
            r == audio_type_of(b@),
    {
        if b[0] == 0x66 && b[1] == 0x4C && b[2] == 0x61 && b[3] == 0x43 {
            Type::Flac
        } else if b[0] == 0x4F && b[1] == 0x67 && b[2] == 0x67 && b[3] == 0x53 {
            Type::Ogg
        } else if b[0] == 0xFF && b[1] == 0xFB {
            Type::Mp3
        } else if b[0] == 0x49 && b[1] == 0x44 && b[2] == 0x33 {
            Type::Mp3
        } else if b[4] == 0x66 && b[5] == 0x74 && b[6] == 0x79 && b[7] == 0x70 && b[8] == 0x4D
            && b[9] == 0x34 && b[10] == 0x41 && b[11] == 0x20 {
            Type::M4a
        } else {
            Type::Unknown
        }
    }
}

impl vstd::std_specs::convert::FromSpecImpl<[u8; 12]> for Type {
    open spec fn obeys_from_spec() -> bool {
        true
    }

    open spec fn from_spec(b: [u8; 12]) -> Type {
        audio_type_of(b@)
    }
}

/// The plaintext of the ciphertext byte `b` at stream position `pos`.
pub open spec fn decrypt_byte(table: Seq<u8>, pos: int, b: u8) -> u8 {
    b ^ table[pos % 256]
}

/// The plaintext of a whole audio payload: each byte decrypted at its own position.
pub open spec fn plain(table: Seq<u8>, data: Seq<u8>) -> Seq<u8> {
    Seq::new(data.len(), |i: int| decrypt_byte(table, i, data[i]))
}

/// The state of a decrypting audio stream.
pub struct AudioView {
    /// The format sniffed from the first twelve decrypted bytes.
    pub kind: Type,
    /// The keystream table.
    pub table: Seq<u8>,
    /// The whole encrypted payload.
    pub data: Seq<u8>,
    /// How many bytes have been handed out.
    pub pos: nat,
}

impl AudioView {
    pub open spec fn wf(self) -> bool {
        self.table.len() == 256 && self.pos <= self.data.len()
    }

    /// How many bytes a read of at most `max` bytes hands out.
    pub open spec fn read_len(self, max: nat) -> nat {
        if self.pos + max <= self.data.len() {
            max
        } else {
            (self.data.len() - self.pos) as nat
        }
    }

    /// The bytes that a read of at most `max` bytes hands out.
    pub open spec fn chunk(self, max: nat) -> Seq<u8> {
        plain(self.table, self.data).subrange(
            self.pos as int,
            (self.pos + self.read_len(max)) as int,
        )
    }

    /// The state after a read of at most `max` bytes.
    pub open spec fn advance(self, max: nat) -> AudioView {
        AudioView { pos: self.pos + self.read_len(max), ..self }
    }
}

/// Reading `k` bytes and then `m` bytes hands out the same bytes, and leaves
/// the same state, as reading `k + m` bytes at once: decryption depends on the
/// absolute position alone, never on where earlier reads stopped.
pub proof fn lemma_split_read(a: AudioView, k: nat, m: nat)
    requires
        a.wf(),
    ensures
        a.chunk(k) + a.advance(k).chunk(m) == a.chunk(k + m),
        a.advance(k).advance(m) == a.advance(k + m),
{
    let p = plain(a.table, a.data);
    assert(a.chunk(k) + a.advance(k).chunk(m) =~= a.chunk(k + m));
}

/// A decrypting reader over an encrypted audio payload. The byte at position
/// `pos` of the payload decrypts to `byte ^ table[pos % 256]`.
#[derive(Debug)]
pub struct Audio {
    kind: Type,
    keystream: NcmRc4,
    data: Vec<u8>,
    pos: usize,
}

impl View for Audio {
    type V = AudioView;

    closed spec fn view(&self) -> AudioView {
        AudioView {
            kind: self.kind,
            table: self.keystream@,
            data: self.data@,
            pos: self.pos as nat,
        }
    }
}

impl Audio {
    #[verifier::type_invariant]
    spec fn inv(&self) -> bool {
        self.keystream@.len() == 256 && self.pos <= self.data@.len()
    }

    /// A reader over the encrypted payload `input`, decrypted with the keystream
    /// of `key`. Its format is sniffed from the first twelve decrypted bytes,
    /// which stay at the start of the stream. `Truncated` where `input` holds
    /// fewer than twelve bytes.
    pub fn try_new(input: Vec<u8>, key: &[u8]) -> (r: Result<Audio, NcmError>)
        ensures
            match r {
                Ok(a) => input@.len() >= 12 && a@ == (AudioView {
                    kind: audio_type_of(plain(keystream_table(key@), input@).take(12)),
                    table: keystream_table(key@),
                    data: input@,
                    pos: 0,
                }),
                Err(e) => e == NcmError::Truncated && input@.len() < 12,
            },
    {
        if input.len() < 12 {
            return Err(NcmError::Truncated);
        }
        let keystream = NcmRc4::new(key);
        let head = Self::decrypt(&keystream, input.as_slice(), 0, 12);
        let mut buf = [0u8; 12];
        let mut i: usize = 0;
        while i < 12
            invariant
                i <= 12,
                head@.len() == 12,
                forall|k: int| 0 <= k < i ==> buf@[k] == head@[k],
            decreases 12 - i,
        {
            buf[i] = head[i];
            i = i + 1;
        }
        assert(buf@ =~= head@);
        let kind = Type::from(buf);
        Ok(Audio { kind, keystream, data: input, pos: 0 })
    }

    /// The sniffed format.
    pub fn audio_type(&self) -> (r: Type)
        ensures
            r == self@.kind,
    {
        self.kind
    }

    /// The file extension of the sniffed format.
    pub fn ext(&self) -> (r: String)
        ensures
            r@ == audio_ext(self@.kind),
    {
        self.kind.ext()
    }

    /// Hands out the next at most `max` decrypted bytes; fewer only at the end
    /// of the payload, none once it is exhausted.
    pub fn read(&mut self, max: usize) -> (r: Vec<u8>)
        ensures
            old(self)@.wf(),
            final(self)@.wf(),
            r@ == old(self)@.chunk(max as nat),
            final(self)@ == old(self)@.advance(max as nat),
    {
        proof {
            use_type_invariant(&*self);
        }
        let left = self.data.len() - self.pos;
        let n = if max <= left {
            max
        } else {
            left
        };
        let out = Self::decrypt(&self.keystream, self.data.as_slice(), self.pos, n);
        self.pos = self.pos + n;
        out
    }

    /// The plaintext of the `n` bytes of `data` at `from`, each decrypted at
    /// its own position.
    fn decrypt(keystream: &NcmRc4, data: &[u8], from: usize, n: usize) -> (r: Vec<u8>)
        requires
            keystream@.len() == 256,
            from + n <= data@.len(),
        ensures
            r@ == plain(keystream@, data@).subrange(from as int, from + n),
    {
        let len = data.len();
        let mut out: Vec<u8> = Vec::with_capacity(n);
        let mut i: usize = 0;
        while i < n
            invariant
                i <= n,
                len == data@.len(),
                from + n <= len,
                keystream@.len() == 256,
                out@ == plain(keystream@, data@).subrange(from as int, from + i),
            decreases n - i,
        {
            let p = from + i;
            out.push(data[p] ^ keystream.at(p % 256));
            i = i + 1;
            assert(out@ =~= plain(keystream@, data@).subrange(from as int, from + i));
        }
        out
    }
}

} // verus!
