//! The keyed derivation wrapper.
//!
//! `Rc4Md5Cipher` hashes the caller's 16-byte key and 16-byte IV into a
//! 16-byte derived key with MD5 and seeds an RC4 engine with that key and
//! an empty IV; every transform is delegated to that engine.

use vstd::prelude::*;

use md5::Digest;
use md5::Md5;

use crate::engine::Mode;
use crate::engine::Rc4;
use crate::keystream::transformed;
use crate::keystream::valid_key_len;

verus! {

/// The MD5 digest of a byte sequence: 16 bytes determined by the input alone.
pub uninterp spec fn md5_of(data: Seq<u8>) -> Seq<u8>;

/// Relies on md5::Md5 through the md5::Digest trait: `finalize` returns the
/// 16-byte MD5 digest of the fed bytes, a function of those bytes alone.
#[verifier::external_body]
fn md5_digest(data: &[u8]) -> (r: Vec<u8>)
    ensures
        r@ == md5_of(data@),
        r@.len() == 16,
{
    let mut hasher = Md5::new();
    Digest::update(&mut hasher, data);
    Digest::finalize(hasher).to_vec()
}

/// An RC4 engine keyed by `MD5(key || iv)`.  It owns its engine exclusively
/// and advances it with every transform.
pub struct Rc4Md5Cipher {
    cipher: Rc4,
}

impl Rc4Md5Cipher {
    /// The key length the wrapper requires of its caller, in bytes.
    pub const KEY_LEN: usize = 16;

    /// The IV length the wrapper requires of its caller, in bytes.
    pub const IV_LEN: usize = 16;

    /// The key the inner engine was seeded with.
    pub closed spec fn derived_key_spec(&self) -> Seq<u8> {
        self.cipher.key_spec()
    }

    /// How many keystream bytes the inner engine has produced so far.
    pub closed spec fn pos_spec(&self) -> nat {
        self.cipher.pos_spec()
    }

    /// The mode the wrapper was constructed with.
    pub closed spec fn mode_spec(&self) -> Mode {
        self.cipher.mode_spec()
    }

    /// The inner engine is well-formed.
    pub closed spec fn wf(&self) -> bool {
        self.cipher.wf()
    }

    /// Derive the engine key as `MD5(key || iv)` — key first, then IV — and
    /// seed an RC4 engine with it and an empty IV.  The digest is 16 bytes,
    /// a key length the engine always accepts, so construction succeeds.
    pub fn new(key: &[u8], iv: &[u8], mode: Mode) -> (r: Rc4Md5Cipher)
        requires
            key@.len() == Rc4Md5Cipher::KEY_LEN,
            iv@.len() == Rc4Md5Cipher::IV_LEN,
        ensures
            r.wf(),
            r.derived_key_spec() == md5_of(key@ + iv@),
            r.pos_spec() == 0,
            r.mode_spec() == mode,
    {
        let mut material: Vec<u8> = Vec::new();
        material.extend_from_slice(key);
        material.extend_from_slice(iv);
        proof {
            assert(material@ =~= key@ + iv@);
        }
        let digest = md5_digest(material.as_slice());
        proof {
            assert(valid_key_len(digest@.len()));
        }
        let empty: Vec<u8> = Vec::new();
        match Rc4::new(digest.as_slice(), empty.as_slice(), mode) {
            Ok(cipher) => Rc4Md5Cipher { cipher },
            Err(_) => unreached(),
        }
    }

    /// Transform the buffer in place with the derived-key engine, advancing
    /// it by exactly `in_out.len()` keystream bytes.
    pub fn in_place(&mut self, in_out: &mut Vec<u8>)
        requires
            old(self).wf(),
        ensures
            final(self).wf(),
            final(self).derived_key_spec() == old(self).derived_key_spec(),
            final(self).mode_spec() == old(self).mode_spec(),
            final(self).pos_spec() == old(self).pos_spec() + old(in_out)@.len(),
            final(in_out)@ == transformed(
                old(self).derived_key_spec(),
                old(self).pos_spec(),
                old(in_out)@,
            ),
    {
        self.cipher.in_place(in_out)
    }
}

} // verus!
