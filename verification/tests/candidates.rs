use rig_libsql::candidates::{candidate_limit, counts_query, embedding_counts};
use rig_libsql::error::StoreError;

#[test]
fn the_count_query_counts_embeddings_and_documents() {
    assert_eq!(
        counts_query("notes"),
        "SELECT
                        (SELECT COUNT(*) FROM notes_embeddings),
                        (SELECT COUNT(DISTINCT document_rowid) FROM notes_embedding_map)"
    );
}

#[test]
fn counts_come_from_the_row() {
    assert!(matches!(embedding_counts(Some((7, 3))), Ok((7, 3))));
    assert!(matches!(embedding_counts(Some((-7, i64::MIN))), Ok((0, 0))));
    assert!(matches!(embedding_counts(Some((i64::MAX, 0))), Ok((m, 0)) if m == i64::MAX as u64));
    assert!(matches!(embedding_counts(None), Err(StoreError::NoEmbeddingCounts)));
}

#[test]
fn no_samples_need_no_candidates() {
    assert_eq!(candidate_limit(Some((10, 5)), 0, false), 0);
    assert_eq!(candidate_limit(Some((10, 5)), 0, true), 0);
    assert_eq!(candidate_limit(None, 0, true), 0);
}

#[test]
fn filters_take_every_embedding() {
    assert_eq!(candidate_limit(Some((10, 5)), 3, true), 10);
    assert_eq!(candidate_limit(Some((10, 5)), 30, true), 30);
    assert_eq!(candidate_limit(Some((0, 0)), 1, true), 1);
}

#[test]
fn one_embedding_each_needs_as_many_candidates_as_samples() {
    assert_eq!(candidate_limit(Some((5, 5)), 3, false), 3);
    assert_eq!(candidate_limit(Some((5, 5)), 30, false), 30);
    assert_eq!(candidate_limit(Some((4, 5)), 3, false), 3);
}

#[test]
fn extra_embeddings_come_on_top() {
    assert_eq!(candidate_limit(Some((10, 5)), 3, false), 8);
    assert_eq!(candidate_limit(Some((10, 5)), 5, false), 10);
    assert_eq!(candidate_limit(Some((10, 5)), 6, false), 10);
    assert_eq!(candidate_limit(Some((10, 5)), u64::MAX, false), 10);
    assert_eq!(candidate_limit(Some((1, 0)), 1, false), 1);
    assert_eq!(candidate_limit(Some((u64::MAX, 0)), u64::MAX, false), u64::MAX);
}

#[test]
fn unknown_counts_leave_the_samples() {
    assert_eq!(candidate_limit(None, 4, false), 4);
    assert_eq!(candidate_limit(None, 4, true), 4);
}

// The owner of each embedding, in the order of the index.
fn owners_among(owners: &[i32], count: u64) -> usize {
    let mut seen: Vec<i32> = Vec::new();
    for owner in owners.iter().take(count as usize) {
        if !seen.contains(owner) {
            seen.push(*owner);
        }
    }
    seen.len()
}

#[test]
fn candidates_hold_enough_documents_and_no_fewer_would() {
    // One document owns the first three of six embeddings; four documents are stored.
    let owners = [0, 0, 0, 1, 2, 3];
    for samples in 2..=4 {
        let limit = candidate_limit(Some((6, 4)), samples, false);
        assert_eq!(owners_among(&owners, limit), samples as usize);
        assert_eq!(owners_among(&owners, limit - 1), samples as usize - 1);
    }
}
