//! The mathematical model of the RC4 keystream.
//!
//! The key schedule (`ksa_state`) turns a key into a 256-byte permutation;
//! the generator (`prga_state`) advances that permutation one step per
//! keystream byte.  `keystream_byte` names the n-th byte of the keystream
//! and `transformed` the result of combining a buffer with the keystream
//! starting at a given position.  The executable engine is proved to match
//! these functions exactly.

use vstd::prelude::*;

verus! {

/// Key lengths the cipher accepts: one to 256 bytes.
pub open spec fn valid_key_len(n: nat) -> bool {
    1 <= n <= 256
}

/// The identity permutation on 0..256, the key schedule's starting point.
pub open spec fn initial_perm() -> Seq<u8> {
    Seq::new(256, |k: int| k as u8)
}

/// `s` with the entries at `a` and `b` exchanged.
pub open spec fn swapped(s: Seq<u8>, a: int, b: int) -> Seq<u8> {
    s.update(a, s[b]).update(b, s[a])
}

/// Key-schedule state: the permutation under construction and the index `j`.
pub ghost struct KsaState {
    pub s: Seq<u8>,
    pub j: nat,
}

/// The key-schedule state after `t` rounds (0 <= t <= 256): each round `i`
/// moves `j` by `s[i]` plus the next key byte (the key repeating cyclically)
/// and swaps `s[i]` with `s[j]`.
pub open spec fn ksa_state(key: Seq<u8>, t: nat) -> KsaState
    decreases t,
{
    if t == 0 {
        KsaState { s: initial_perm(), j: 0 }
    } else {
        let prev = ksa_state(key, (t - 1) as nat);
        let i = t - 1;
        let j = ((prev.j + prev.s[i as int] + key[(i as int) % (key.len() as int)]) % 256) as nat;
        KsaState { s: swapped(prev.s, i as int, j as int), j }
    }
}

/// Generator state: the permutation and the two indices `i` and `j`.
pub ghost struct PrgaState {
    pub s: Seq<u8>,
    pub i: nat,
    pub j: nat,
}

/// One generator step: advance `i`, move `j` by `s[i]`, swap the two entries.
pub open spec fn prga_advance(st: PrgaState) -> PrgaState {
    let i = ((st.i + 1) % 256) as nat;
    let j = ((st.j + st.s[i as int]) % 256) as nat;
    PrgaState { s: swapped(st.s, i as int, j as int), i, j }
}

/// The generator state once `n` keystream bytes have been produced:
/// the scheduled permutation with both indices zero, advanced `n` times.
pub open spec fn prga_state(key: Seq<u8>, n: nat) -> PrgaState
    decreases n,
{
    if n == 0 {
        PrgaState { s: ksa_state(key, 256).s, i: 0, j: 0 }
    } else {
        prga_advance(prga_state(key, (n - 1) as nat))
    }
}

/// The n-th keystream byte (counting from zero): after the (n+1)-th step
/// the generator emits `s[(s[i] + s[j]) % 256]`.
pub open spec fn keystream_byte(key: Seq<u8>, n: nat) -> u8 {
    let st = prga_state(key, n + 1);
    st.s[((st.s[st.i as int] + st.s[st.j as int]) % 256) as int]
}

/// `data` combined bytewise (by xor) with the keystream of `key`,
/// starting at keystream position `pos`.
pub open spec fn transformed(key: Seq<u8>, pos: nat, data: Seq<u8>) -> Seq<u8> {
    Seq::new(data.len(), |k: int| data[k] ^ keystream_byte(key, (pos + k) as nat))
}

/// The concatenation of a sequence of buffers, in order.
pub open spec fn concat_chunks(chunks: Seq<Seq<u8>>) -> Seq<u8>
    decreases chunks.len(),
{
    if chunks.len() == 0 {
        Seq::empty()
    } else {
        chunks[0] + concat_chunks(chunks.drop_first())
    }
}

/// A sequence of buffers transformed call by call, each call starting where
/// the previous one left the keystream, with the outputs concatenated.
pub open spec fn transformed_chunks(key: Seq<u8>, pos: nat, chunks: Seq<Seq<u8>>) -> Seq<u8>
    decreases chunks.len(),
{
    if chunks.len() == 0 {
        Seq::empty()
    } else {
        transformed(key, pos, chunks[0]) + transformed_chunks(
            key,
            (pos + chunks[0].len()) as nat,
            chunks.drop_first(),
        )
    }
}

/// The key schedule keeps a 256-entry permutation and an index below 256.
pub proof fn lemma_ksa_state_wf(key: Seq<u8>, t: nat)
    requires
        t <= 256,
    ensures
        ksa_state(key, t).s.len() == 256,
        ksa_state(key, t).j < 256,
    decreases t,
{
    if t > 0 {
        lemma_ksa_state_wf(key, (t - 1) as nat);
    }
}

/// The generator keeps a 256-entry permutation and indices below 256.
pub proof fn lemma_prga_state_wf(key: Seq<u8>, n: nat)
    ensures
        prga_state(key, n).s.len() == 256,
        prga_state(key, n).i < 256,
        prga_state(key, n).j < 256,
    decreases n,
{
    if n == 0 {
        lemma_ksa_state_wf(key, 256);
    } else {
        lemma_prga_state_wf(key, (n - 1) as nat);
    }
}

} // verus!
