//! The executable RC4 engine.
//!
//! `Rc4::new` runs the key schedule; `Rc4::in_place` advances the generator
//! one step per byte and xors each keystream byte into the buffer.  The
//! engine's abstract state is the pair (key, position): well-formedness ties
//! the concrete permutation and indices to `prga_state` at that position.

use vstd::prelude::*;

use crate::keystream::initial_perm;
use crate::keystream::ksa_state;
use crate::keystream::lemma_ksa_state_wf;
use crate::keystream::lemma_prga_state_wf;
use crate::keystream::prga_advance;
use crate::keystream::prga_state;
use crate::keystream::keystream_byte;
use crate::keystream::transformed;
use crate::keystream::valid_key_len;

verus! {

/// The direction a cipher instance was built for.  The keystream transform
/// is its own inverse, so both directions apply the same operation; the
/// mode is kept for API symmetry.
#[derive(Clone, Copy, Debug, PartialEq, Eq, Structural)]
pub enum Mode {
    Encrypt,
    Decrypt,
}

/// Construction failures.
#[derive(Clone, Copy, Debug, PartialEq, Eq, Structural)]
pub enum CipherError {
    /// The key or IV length is not supported by the cipher.
    InvalidKeyMaterial,
}

/// An RC4 keystream engine.  Its state advances monotonically with every
/// transform and is never shared or reset.
pub struct Rc4 {
    s: Vec<u8>,
    i: usize,
    j: usize,
    mode: Mode,
    key: Ghost<Seq<u8>>,
    pos: Ghost<nat>,
}

impl Rc4 {
    /// The key the engine was seeded with.
    pub closed spec fn key_spec(&self) -> Seq<u8> {
        self.key@
    }

    /// How many keystream bytes the engine has produced so far.
    pub closed spec fn pos_spec(&self) -> nat {
        self.pos@
    }

    /// The mode the engine was constructed with.
    pub closed spec fn mode_spec(&self) -> Mode {
        self.mode
    }

    /// The concrete state is exactly the generator state of `key_spec()`
    /// after `pos_spec()` keystream bytes.
    pub closed spec fn wf(&self) -> bool {
        &&& valid_key_len(self.key@.len())
        &&& self.s@ == prga_state(self.key@, self.pos@).s
        &&& self.i == prga_state(self.key@, self.pos@).i
        &&& self.j == prga_state(self.key@, self.pos@).j
    }

    /// Build an engine from raw key material.  RC4 accepts keys of 1 to 256
    /// bytes and takes no IV, so any other key length, or a non-empty IV,
    /// is rejected as `InvalidKeyMaterial`.
    pub fn new(key: &[u8], iv: &[u8], mode: Mode) -> (r: Result<Rc4, CipherError>)
        ensures
            r is Ok <==> (valid_key_len(key@.len()) && iv@.len() == 0),
            r matches Ok(c) ==> c.wf() && c.key_spec() == key@ && c.pos_spec() == 0
                && c.mode_spec() == mode,
            r matches Err(e) ==> e == CipherError::InvalidKeyMaterial,
    {
        if key.len() < 1 || key.len() > 256 || iv.len() != 0 {
            return Err(CipherError::InvalidKeyMaterial);
        }
        let mut s: Vec<u8> = Vec::with_capacity(256);
        let mut t: usize = 0;
        while t < 256
            invariant
                t <= 256,
                s@.len() == t,
                forall|k: int| 0 <= k < t ==> s@[k] == k as u8,
            decreases 256 - t,
        {
            s.push(t as u8);
            t = t + 1;
        }
        proof {
            assert(s@ =~= initial_perm());
            assert(s@ == ksa_state(key@, 0).s);
        }
        let klen = key.len();
        let mut j: usize = 0;
        let mut i: usize = 0;
        while i < 256
            invariant
                i <= 256,
                valid_key_len(key@.len()),
                klen == key@.len(),
                s@ == ksa_state(key@, i as nat).s,
                j == ksa_state(key@, i as nat).j,
                s@.len() == 256,
                j < 256,
            decreases 256 - i,
        {
            let ji = (j + s[i] as usize + key[i % klen] as usize) % 256;
            let si = s[i];
            let sj = s[ji];
            s[i] = sj;
            s[ji] = si;
            j = ji;
            i = i + 1;
            proof {
                lemma_ksa_state_wf(key@, i as nat);
            }
        }
        Ok(Rc4 { s, i: 0, j: 0, mode, key: Ghost(key@), pos: Ghost(0nat) })
    }

    /// Combine the next `in_out.len()` keystream bytes with the buffer,
    /// overwriting it with the result and advancing the engine by exactly
    /// that many bytes.  A zero-length buffer leaves everything unchanged.
    pub fn in_place(&mut self, in_out: &mut Vec<u8>)
        requires
            old(self).wf(),
        ensures
            final(self).wf(),
            final(self).key_spec() == old(self).key_spec(),
            final(self).mode_spec() == old(self).mode_spec(),
            final(self).pos_spec() == old(self).pos_spec() + old(in_out)@.len(),
            final(in_out)@ == transformed(old(self).key_spec(), old(self).pos_spec(), old(in_out)@),
    {
        let ghost orig_key: Seq<u8> = self.key@;
        let ghost orig_pos: nat = self.pos@;
        let ghost orig_mode: Mode = self.mode;
        let ghost orig_data: Seq<u8> = in_out@;
        let n = in_out.len();
        let mut k: usize = 0;
        while k < n
            invariant
                k <= n,
                n == orig_data.len(),
                in_out@.len() == n,
                self.wf(),
                self.key@ == orig_key,
                self.mode == orig_mode,
                self.pos@ == orig_pos + k,
                forall|m: int| 0 <= m < k ==> in_out@[m]
                    == transformed(orig_key, orig_pos, orig_data)[m],
                forall|m: int| k <= m < n ==> in_out@[m] == orig_data[m],
            decreases n - k,
        {
            proof {
                lemma_prga_state_wf(self.key@, self.pos@);
                lemma_prga_state_wf(self.key@, (self.pos@ + 1) as nat);
                assert(prga_state(self.key@, (self.pos@ + 1) as nat)
                    == prga_advance(prga_state(self.key@, self.pos@)));
            }
            let i2 = (self.i + 1) % 256;
            let j2 = (self.j + self.s[i2] as usize) % 256;
            let a = self.s[i2];
            let b = self.s[j2];
            self.s[i2] = b;
            self.s[j2] = a;
            self.i = i2;
            self.j = j2;
            let idx = (self.s[i2] as usize + self.s[j2] as usize) % 256;
            let ks = self.s[idx];
            proof {
                assert(ks == keystream_byte(orig_key, (orig_pos + k) as nat));
            }
            let x = in_out[k];
            in_out[k] = x ^ ks;
            self.pos = Ghost((self.pos@ + 1) as nat);
            k = k + 1;
        }
        proof {
            assert(in_out@ =~= transformed(orig_key, orig_pos, orig_data));
        }
    }
}

} // verus!
