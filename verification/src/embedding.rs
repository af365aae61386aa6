//! Embedding vectors as the byte blobs that libSQL's vector functions take.

use vstd::prelude::*;

verus! {

/// An embedding vector; each component is a single-precision float, held by its bit
/// pattern.
#[derive(Debug, PartialEq, Eq)]
pub struct Embedding {
    pub vec: Vec<u32>,
}

/// The byte at position `at` of a component's four bytes, the least significant
/// byte first.
pub open spec fn le_byte(bits: u32, at: int) -> u8 {
    if at == 0 {
        (bits % 0x100) as u8
    } else if at == 1 {
        (bits / 0x100 % 0x100) as u8
    } else if at == 2 {
        (bits / 0x1_0000 % 0x100) as u8
    } else {
        (bits / 0x100_0000) as u8
    }
}

/// The four bytes of a component, the least significant byte first.
pub open spec fn le_component(bits: u32) -> Seq<u8> {
    seq![le_byte(bits, 0), le_byte(bits, 1), le_byte(bits, 2), le_byte(bits, 3)]
}

/// The little-endian blob of a vector: the bytes of its components one after the
/// other.
pub open spec fn le_blob(vector: Seq<u32>) -> Seq<u8> {
    Seq::new(4 * vector.len(), |i: int| le_byte(vector[i / 4], i % 4))
}

/// `IntoBytes::as_bytes` of `zerocopy`, for its little-endian 32-bit integer: the
/// bytes of the integer, the least significant byte first, on every machine.
#[verifier::external_body]
fn component_to_le_bytes(bits: u32) -> (bytes: Vec<u8>)
    ensures
        bytes@ == le_component(bits),
{
    zerocopy::IntoBytes::as_bytes(&zerocopy::little_endian::U32::new(bits)).to_vec()
}

/// Serializes a query vector into a little-endian byte blob.
pub fn query_to_le_bytes(query: &Vec<u32>) -> (blob: Vec<u8>)
    ensures
        blob@ == le_blob(query@),
{
    let mut blob: Vec<u8> = Vec::new();
    let mut i: usize = 0;
    while i < query.len()
        invariant
            i <= query.len(),
            blob@ == le_blob(query@.take(i as int)),
        decreases query.len() - i,
    {
        let ghost before = blob@;
        let mut bytes = component_to_le_bytes(query[i]);
        blob.append(&mut bytes);
        proof {
            let shorter = query@.take(i as int);
            let longer = query@.take(i + 1);
            assert forall|k: int| 0 <= k < 4 * (i + 1) implies blob@[k] == #[trigger] le_blob(
                longer,
            )[k] by {
                if k < 4 * i {
                    assert(before[k] == le_blob(shorter)[k]);
                    assert(shorter[k / 4] == longer[k / 4]);
                } else {
                    assert(k / 4 == i && k % 4 == k - 4 * i);
                    assert(longer[i as int] == query@[i as int]);
                }
            }
            assert(blob@ =~= le_blob(longer));
        }
        i += 1;
    }
    assert(query@.take(i as int) =~= query@);
    blob
}

/// Serializes an embedding into the little-endian byte blob that libSQL's
/// `vector(?)` / `vector_distance_*` SQL functions expect.
pub fn embedding_to_le_bytes(embedding: &Embedding) -> (blob: Vec<u8>)
    ensures
        blob@ == le_blob(embedding.vec@),
{
    query_to_le_bytes(&embedding.vec)
}

/// A blob holds the components one after the other, each by its four bytes, the least
/// significant byte first.
pub proof fn law_blob_is_little_endian(vector: Seq<u32>)
    ensures
        le_blob(vector).len() == 4 * vector.len(),
        forall|i: int|
            0 <= i < vector.len() ==> #[trigger] vector[i] == le_blob(vector)[4 * i] + 0x100
                * le_blob(vector)[4 * i + 1] + 0x1_0000 * le_blob(vector)[4 * i + 2] + 0x100_0000
                * le_blob(vector)[4 * i + 3],
{
    assert forall|i: int| 0 <= i < vector.len() implies #[trigger] vector[i] == le_blob(vector)[4
        * i] + 0x100 * le_blob(vector)[4 * i + 1] + 0x1_0000 * le_blob(vector)[4 * i + 2]
        + 0x100_0000 * le_blob(vector)[4 * i + 3] by {
        assert((4 * i) / 4 == i && (4 * i) % 4 == 0);
        assert((4 * i + 1) / 4 == i && (4 * i + 1) % 4 == 1);
        assert((4 * i + 2) / 4 == i && (4 * i + 2) % 4 == 2);
        assert((4 * i + 3) / 4 == i && (4 * i + 3) % 4 == 3);
    }
}

/// Different vectors have different blobs: nothing of a vector is lost.
pub proof fn law_blob_determines_vector(a: Seq<u32>, b: Seq<u32>)
    requires
        le_blob(a) == le_blob(b),
    ensures
        a == b,
{
    assert(le_blob(a).len() == 4 * a.len());
    assert(le_blob(b).len() == 4 * b.len());
    assert forall|i: int| 0 <= i < a.len() implies a[i] == b[i] by {
        assert((4 * i) / 4 == i && (4 * i) % 4 == 0);
        assert((4 * i + 1) / 4 == i && (4 * i + 1) % 4 == 1);
        assert((4 * i + 2) / 4 == i && (4 * i + 2) % 4 == 2);
        assert((4 * i + 3) / 4 == i && (4 * i + 3) % 4 == 3);
        assert(le_blob(a)[4 * i] == le_byte(a[i], 0) && le_blob(b)[4 * i] == le_byte(b[i], 0));
        assert(le_blob(a)[4 * i + 1] == le_byte(a[i], 1) && le_blob(b)[4 * i + 1] == le_byte(
            b[i],
            1,
        ));
        assert(le_blob(a)[4 * i + 2] == le_byte(a[i], 2) && le_blob(b)[4 * i + 2] == le_byte(
            b[i],
            2,
        ));
        assert(le_blob(a)[4 * i + 3] == le_byte(a[i], 3) && le_blob(b)[4 * i + 3] == le_byte(
            b[i],
            3,
        ));
    }
    assert(a =~= b);
}

/// Embeddings and queries are serialized alike: four bytes for each component, from which the
/// component is got back, whatever stands before and behind it.
pub proof fn law_vectors_are_serialized_whole(
    embedding: Embedding,
    query: Vec<u32>,
    stored: Vec<u8>,
    asked: Vec<u8>,
)
    requires
        embedding.vec@ == query@,
        call_ensures(embedding_to_le_bytes, (&embedding,), stored),
        call_ensures(query_to_le_bytes, (&query,), asked),
    ensures
        stored@ == asked@,
        asked@.len() == 4 * query@.len(),
        forall|i: int|
            0 <= i < query@.len() ==> #[trigger] query@[i] == asked@[4 * i] + 0x100 * asked@[4 * i
                + 1] + 0x1_0000 * asked@[4 * i + 2] + 0x100_0000 * asked@[4 * i + 3],
{
    law_blob_is_little_endian(query@);
}

} // verus!
