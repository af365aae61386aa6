use rig_libsql::embedding::{embedding_to_le_bytes, query_to_le_bytes, Embedding};

#[test]
fn components_are_little_endian() {
    let vector = vec![0x0403_0201, 0x3f80_0000, 1.5f32.to_bits()];
    assert_eq!(
        query_to_le_bytes(&vector),
        vec![1, 2, 3, 4, 0, 0, 0x80, 0x3f, 0, 0, 0xc0, 0x3f]
    );
    assert!(query_to_le_bytes(&Vec::new()).is_empty());
}

#[test]
fn embeddings_are_serialized_like_queries() {
    let vector: Vec<u32> = vec![0.25f32, -1.0, f32::MAX].into_iter().map(|x| x.to_bits()).collect();
    let mut expected = Vec::new();
    for component in vec![0.25f32, -1.0, f32::MAX] {
        expected.extend(component.to_le_bytes());
    }
    assert_eq!(query_to_le_bytes(&vector), expected);
    assert_eq!(embedding_to_le_bytes(&Embedding { vec: vector }), expected);
}

#[test]
fn different_vectors_have_different_blobs() {
    let one = query_to_le_bytes(&vec![1, 2]);
    assert_ne!(one, query_to_le_bytes(&vec![1, 3]));
    assert_ne!(one, query_to_le_bytes(&vec![1]));
    assert_ne!(query_to_le_bytes(&vec![0x0100]), query_to_le_bytes(&vec![0x1_0000]));
}
