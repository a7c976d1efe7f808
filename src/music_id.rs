use vstd::prelude::*;
use vstd::string::StringSliceAdditionalSpecFns;

verus! {

/// A music identifier of the metadata JSON, which arrives either as a number
/// or as a string.
#[derive(Debug, Clone, PartialEq, Eq)]
pub enum MusicId {
    Num(u32),
    Str(String),
}

/// Whether every byte of `b` is an ASCII decimal digit.
pub open spec fn all_digits(b: Seq<u8>) -> bool {
    forall|i: int| 0 <= i < b.len() ==> 0x30 <= #[trigger] b[i] <= 0x39
}

/// The value of the decimal digits `b`.
pub open spec fn digits_value(b: Seq<u8>) -> int
    decreases b.len(),
{
    if b.len() == 0 {
        0
    } else {
        digits_value(b.drop_last()) * 10 + (b.last() - 0x30)
    }
}

/// The digits of a decimal `u32` literal: `b` without an optional leading `+`.
pub open spec fn unsigned_digits(b: Seq<u8>) -> Seq<u8> {
    if b.len() > 0 && b[0] == 0x2B {
        b.skip(1)
    } else {
        b
    }
}

/// The `u32` that the text `b` spells in decimal (an optional `+`, then at
/// least one digit), or `None` where it spells none or one too large.
pub open spec fn parsed_u32(b: Seq<u8>) -> Option<u32> {
    let d = unsigned_digits(b);
    if d.len() > 0 && all_digits(d) && digits_value(d) <= u32::MAX {
        Some(digits_value(d) as u32)
    } else {
        None
    }
}

proof fn lemma_digits_prefix(d: Seq<u8>, k: int)
    requires
        all_digits(d),
        0 <= k <= d.len(),
    ensures
        digits_value(d.take(k)) <= digits_value(d),
        0 <= digits_value(d.take(k)),
    decreases d.len(),
{
    if k < d.len() {
        assert(d.drop_last().take(k) =~= d.take(k));
        assert(all_digits(d.drop_last()));
        lemma_digits_prefix(d.drop_last(), k);
        lemma_digits_prefix(d.drop_last(), d.len() - 1);
        assert(d.take(d.len() - 1) =~= d.drop_last());
    } else {
        assert(d.take(k) =~= d);
        if d.len() > 0 {
            assert(all_digits(d.drop_last()));
            lemma_digits_prefix(d.drop_last(), d.len() - 1);
            assert(d.drop_last().take(d.len() - 1) =~= d.drop_last());
        }
    }
}

impl MusicId {
    /// The identifier given as a JSON number, cut to its low 32 bits.
    pub fn from_number(n: u64) -> (r: MusicId)
        ensures
            r == MusicId::Num((n % 0x1_0000_0000) as u32),
    {
        MusicId::Num((n % 0x1_0000_0000) as u32)
    }

    /// The identifier given as a JSON string: a number where the text spells a
    /// decimal `u32`, else the text itself.
    pub fn from_text(s: &str) -> (r: MusicId)
        ensures
            match r {
                MusicId::Num(v) => parsed_u32(s.spec_bytes()) == Some(v),
                MusicId::Str(t) => parsed_u32(s.spec_bytes()) is None && t@ == s@,
            },
    {
        let b = s.as_bytes();
        let ghost d = unsigned_digits(b@);
        let start: usize = if b.len() > 0 && b[0] == 0x2B {
            1
        } else {
            0
        };
        assert(d =~= b@.skip(start as int));
        if start == b.len() {
            return MusicId::Str(s.to_string());
        }
        let mut acc: u64 = 0;
        let mut i: usize = start;
        while i < b.len()
            invariant
                start <= i <= b@.len(),
                b@ == s.spec_bytes(),
                d == unsigned_digits(b@),
                d == b@.skip(start as int),
                all_digits(d.take(i - start)),
                acc == digits_value(d.take(i - start)),
                acc <= u32::MAX,
            decreases b@.len() - i,
        {
            let c = b[i];
            if c < 0x30 || c > 0x39 {
                assert(d[i - start] == c);
                assert(!all_digits(d));
                return MusicId::Str(s.to_string());
            }
            let next = acc * 10 + (c - 0x30) as u64;
            proof {
                let k = i - start;
                assert(d.take(k + 1).drop_last() =~= d.take(k));
                assert(all_digits(d.take(k + 1)));
                assert(d.take(k + 1).last() == c);
                assert(digits_value(d.take(k + 1)) == next);
            }
            if next > u32::MAX as u64 {
                proof {
                    let k = i - start;
                    if all_digits(d) {
                        lemma_digits_prefix(d, k + 1);
                    }
                }
                return MusicId::Str(s.to_string());
            }
            acc = next;
            i = i + 1;
        }
        assert(d.take(i - start) =~= d);
        MusicId::Num(acc as u32)
    }
}

} // verus!
