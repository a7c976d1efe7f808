use vstd::prelude::*;

verus! {

/// The identity permutation of the 256 byte values.
pub open spec fn identity_state() -> Seq<u8> {
    Seq::new(256, |i: int| i as u8)
}

/// The state and the index `j` after the first `n` steps of the RC4 key schedule.
pub open spec fn key_schedule_steps(key: Seq<u8>, n: nat) -> (Seq<u8>, u8)
    decreases n,
{
    if n == 0 || key.len() == 0 {
        (identity_state(), 0u8)
    } else {
        let (s, j) = key_schedule_steps(key, (n - 1) as nat);
        let i = n - 1;
        let j2 = ((j + s[i] + key[i % key.len() as int]) % 256) as u8;
        (s.update(i, s[j2 as int]).update(j2 as int, s[i]), j2)
    }
}

/// The RC4 key schedule, run once over all 256 positions with the key cycled.
/// An empty key leaves the identity permutation.
pub open spec fn key_schedule(key: Seq<u8>) -> Seq<u8> {
    key_schedule_steps(key, 256).0
}

/// The table derived from a scheduled state: entry `i` is
/// `S[(S[k1] + S[k2]) % 256]` with `k1 = (i + 1) % 256` and `k2 = (k1 + S[k1]) % 256`.
pub open spec fn derive_table(s: Seq<u8>) -> Seq<u8> {
    Seq::new(
        256,
        |i: int|
            {
                let k1 = (i + 1) % 256;
                let k2 = (k1 + s[k1]) % 256;
                s[(s[k1] + s[k2]) % 256]
            },
    )
}

/// The 256-byte keystream table of a content key.
pub open spec fn keystream_table(key: Seq<u8>) -> Seq<u8> {
    derive_table(key_schedule(key))
}

/// Deriving the keystream table is a pure function of the key: two derivations
/// from the same key give the same 256 bytes.
pub proof fn lemma_keystream_deterministic(k1: Seq<u8>, k2: Seq<u8>)
    requires
        k1 == k2,
    ensures
        keystream_table(k1) == keystream_table(k2),
        keystream_table(k1).len() == 256,
{
}

/// The keystream table derived from a content key, reused cyclically.
#[derive(Debug, Clone)]
pub struct NcmRc4 {
    state: [u8; 256],
}

impl View for NcmRc4 {
    type V = Seq<u8>;

    closed spec fn view(&self) -> Seq<u8> {
        self.state@
    }
}

impl NcmRc4 {
    /// Derives the keystream table of `key`.
    pub fn new(key: &[u8]) -> (r: NcmRc4)
        ensures
            r@ == keystream_table(key@),
    {
        let mut rc4 = NcmRc4 { state: [0u8; 256] };
        let s = Self::ksa(key);
        rc4.ncm_prga(&s);
        rc4
    }

    /// Byte `i` of the table.
    pub fn at(&self, i: usize) -> (r: u8)
        requires
            i < 256,
        ensures
            r == self@[i as int],
    {
        self.state[i]
    }

    fn ksa(key: &[u8]) -> (state: [u8; 256])
        ensures
            state@ == key_schedule(key@),
    {
        let mut state = [0u8; 256];
        let mut i: usize = 0;
        while i < 256
            invariant
                i <= 256,
                forall|k: int| 0 <= k < i ==> state@[k] == k as u8,
            decreases 256 - i,
        {
            state[i] = i as u8;
            i = i + 1;
        }
        assert(state@ =~= identity_state());
        if key.len() == 0 {
            return state;
        }
        let mut j: u8 = 0;
        let mut i: usize = 0;
        while i < 256
            invariant
                i <= 256,
                key@.len() > 0,
                (state@, j) == key_schedule_steps(key@, i as nat),
            decreases 256 - i,
        {
            let k = key[i % key.len()];
            j = ((j as usize + state[i] as usize + k as usize) % 256) as u8;
            let si = state[i];
            let sj = state[j as usize];
            state[i] = sj;
            state[j as usize] = si;
            i = i + 1;
        }
        state
    }

    fn ncm_prga(&mut self, state: &[u8; 256])
        ensures
            final(self)@ == derive_table(state@),
    {
        let mut i: usize = 0;
        while i < 256
            invariant
                i <= 256,
                forall|k: int| 0 <= k < i ==> self.state@[k] == #[trigger] derive_table(state@)[k],
            decreases 256 - i,
        {
            let key1 = (i + 1) % 256;
            let key2 = (key1 + state[key1] as usize) % 256;
            let index = (state[key1] as usize + state[key2] as usize) % 256;
            self.state[i] = state[index];
            i = i + 1;
        }
        assert(self.state@ =~= derive_table(state@));
    }
}

} // verus!
