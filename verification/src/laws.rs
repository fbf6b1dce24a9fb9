//! Laws of the keystream transform, stated over the model in `keystream`.

use vstd::prelude::*;

use crate::engine::Rc4;
use crate::keystream::concat_chunks;
use crate::keystream::keystream_byte;
use crate::keystream::transformed;
use crate::keystream::transformed_chunks;

verus! {

/// Determinism: two engines seeded with the same key and standing at the
/// same keystream position transform any identical sequence of buffers,
/// split at the same boundaries, to identical outputs.
pub proof fn lemma_determinism(a: Rc4, b: Rc4, calls: Seq<Seq<u8>>)
    requires
        a.wf(),
        b.wf(),
        a.key_spec() == b.key_spec(),
        a.pos_spec() == b.pos_spec(),
    ensures
        transformed_chunks(a.key_spec(), a.pos_spec(), calls)
            == transformed_chunks(b.key_spec(), b.pos_spec(), calls),
{
}

/// Chunking invariance: transforming the concatenation of two buffers in
/// one call equals transforming them one after the other — the second
/// starting where the first left the keystream — and concatenating.
pub proof fn lemma_chunking_invariance(key: Seq<u8>, pos: nat, d1: Seq<u8>, d2: Seq<u8>)
    ensures
        transformed(key, pos, d1 + d2)
            == transformed(key, pos, d1) + transformed(key, (pos + d1.len()) as nat, d2),
{
    let whole = transformed(key, pos, d1 + d2);
    let parts = transformed(key, pos, d1) + transformed(key, (pos + d1.len()) as nat, d2);
    assert forall|k: int| 0 <= k < whole.len() implies whole[k] == parts[k] by {
        if k < d1.len() {
            assert(parts[k] == d1[k] ^ keystream_byte(key, (pos + k) as nat));
        } else {
            assert(parts[k] == d2[k - d1.len()] ^ keystream_byte(key, (pos + k) as nat));
        }
    }
    assert(whole =~= parts);
}

/// Chunking invariance over any partition: transforming a buffer in one
/// call equals transforming any partition of it into consecutive chunks,
/// applied in order, and concatenating the outputs.
pub proof fn lemma_partition_invariance(key: Seq<u8>, pos: nat, chunks: Seq<Seq<u8>>)
    ensures
        transformed(key, pos, concat_chunks(chunks)) == transformed_chunks(key, pos, chunks),
    decreases chunks.len(),
{
    if chunks.len() == 0 {
        assert(transformed(key, pos, concat_chunks(chunks)) =~= Seq::<u8>::empty());
    } else {
        lemma_chunking_invariance(key, pos, chunks[0], concat_chunks(chunks.drop_first()));
        lemma_partition_invariance(key, (pos + chunks[0].len()) as nat, chunks.drop_first());
    }
}

/// Combining a byte with the same keystream byte twice gives it back.
proof fn lemma_xor_cancel(x: u8, y: u8)
    by (bit_vector)
    ensures
        (x ^ y) ^ y == x,
{
}

/// Involution: transforming a buffer twice from the same key and position
/// restores it — encrypting and then decrypting with freshly constructed,
/// identically keyed engines round-trips the plaintext.
pub proof fn lemma_involution(key: Seq<u8>, pos: nat, data: Seq<u8>)
    ensures
        transformed(key, pos, transformed(key, pos, data)) == data,
{
    let twice = transformed(key, pos, transformed(key, pos, data));
    assert forall|k: int| 0 <= k < data.len() implies twice[k] == data[k] by {
        lemma_xor_cancel(data[k], keystream_byte(key, (pos + k) as nat));
    }
    assert(twice =~= data);
}

/// Length preservation: the transform of a buffer occupies exactly as many
/// bytes as the buffer it transforms.
pub proof fn lemma_length_preservation(key: Seq<u8>, pos: nat, data: Seq<u8>)
    ensures
        transformed(key, pos, data).len() == data.len(),
{
}

} // verus!
