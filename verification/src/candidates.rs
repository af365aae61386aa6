//! How many candidates a search takes from the vector index.

use vstd::prelude::*;
use vstd::set_lib::{lemma_int_range, lemma_len_subset, lemma_subset_equality, set_int_range};
use vstd::string::*;

use crate::error::{StoreError, StoreErrorView};
use crate::schema::{
    embedding_map_table, embedding_map_table_name, embeddings_table, embeddings_table_name,
};

verus! {

/// The query for the number of stored embeddings and of documents that have one.
pub open spec fn counts_sql(table_name: Seq<char>) -> Seq<char> {
    "SELECT\n                        (SELECT COUNT(*) FROM "@ + embeddings_table(table_name)
        + "),\n                        (SELECT COUNT(DISTINCT document_rowid) FROM "@
        + embedding_map_table(table_name) + ")"@
}

/// The query for the number of stored embeddings and of documents that have one.
pub fn counts_query(table_name: &str) -> (sql: String)
    ensures
        sql@ == counts_sql(table_name@),
{
    let mut sql = "SELECT\n                        (SELECT COUNT(*) FROM ".to_owned();
    sql.append(embeddings_table_name(table_name).as_str());
    sql.append("),\n                        (SELECT COUNT(DISTINCT document_rowid) FROM ");
    sql.append(embedding_map_table_name(table_name).as_str());
    sql.append(")");
    sql
}

/// A count as it is used: a negative one is none.
pub open spec fn as_count(count: i64) -> u64 {
    if count < 0 {
        0
    } else {
        count as u64
    }
}

/// A count as it is used.
fn to_count(count: i64) -> (used: u64)
    ensures
        used == as_count(count),
{
    if count < 0 {
        0
    } else {
        count as u64
    }
}

/// The number of stored embeddings and distinct documents, from the row that the
/// query for them returned.
pub fn embedding_counts(row: Option<(i64, i64)>) -> (counts: Result<(u64, u64), StoreError>)
    ensures
        match row {
            Some((embeddings, documents)) => counts == Ok::<(u64, u64), StoreError>(
                (as_count(embeddings), as_count(documents)),
            ),
            None => counts matches Err(error) && error@ == StoreErrorView::NoEmbeddingCounts,
        },
{
    match row {
        Some((embeddings, documents)) => Ok((to_count(embeddings), to_count(documents))),
        None => Err(StoreError::NoEmbeddingCounts),
    }
}

/// How many candidates to take so that `samples` documents are left of them.
///
/// Filters can discard any candidate, so with filters every embedding is one. Without,
/// documents that own several embeddings can crowd out others: the number of
/// embeddings beyond the first of each document comes on top, up to the number of all
/// embeddings.
pub open spec fn candidates_needed(
    embeddings: u64,
    documents: u64,
    samples: u64,
    has_post_filters: bool,
) -> int {
    if samples == 0 {
        0
    } else if has_post_filters {
        if embeddings > samples {
            embeddings as int
        } else {
            samples as int
        }
    } else if embeddings > documents {
        if samples + (embeddings - documents) < embeddings {
            samples + (embeddings - documents)
        } else {
            embeddings as int
        }
    } else {
        samples as int
    }
}

/// Computes how many candidates to retrieve from `vector_top_k` so that the
/// requested `samples` survive post-filtering and per-document dedup. Counts that are
/// not known count as zero.
pub fn candidate_limit(
    counts: Option<(u64, u64)>,
    samples: u64,
    has_post_filters: bool,
) -> (limit: u64)
    ensures
        match counts {
            Some((embeddings, documents)) => limit == candidates_needed(
                embeddings,
                documents,
                samples,
                has_post_filters,
            ),
            None => limit == samples,
        },
{
    if samples == 0 {
        return 0;
    }
    let (embeddings, documents) = match counts {
        Some(known) => known,
        None => (0, 0),
    };
    if has_post_filters {
        if embeddings > samples {
            embeddings
        } else {
            samples
        }
    } else if embeddings > documents {
        if samples < documents {
            samples + (embeddings - documents)
        } else {
            embeddings
        }
    } else {
        samples
    }
}

/// How many documents own the embeddings, `owners` naming the owner of each.
pub open spec fn owner_count(owners: Seq<int>) -> nat {
    owners.to_set().len()
}

proof fn lemma_owners_left(owners: Seq<int>, count: int)
    requires
        0 <= count <= owners.len(),
    ensures
        owner_count(owners) <= owner_count(owners.take(count)) + (owners.len() - count),
        owner_count(owners) <= owners.len(),
    decreases owners.len() - count,
{
    owners.lemma_cardinality_of_set();
    if count == owners.len() {
        assert(owners.take(count) =~= owners);
    } else {
        lemma_owners_left(owners, count + 1);
        let before = owners.take(count);
        let after = owners.take(count + 1);
        assert(after =~= before.push(owners[count]));
        assert(after.to_set() =~= before.to_set().insert(owners[count])) by {
            assert forall|o: int| after.to_set().contains(o) implies before.to_set().insert(
                owners[count],
            ).contains(o) by {
                let i = choose|i: int| 0 <= i < after.len() && after[i] == o;
                if i < count {
                    assert(before[i] == o);
                }
            }
            assert forall|o: int|
                before.to_set().insert(owners[count]).contains(o) implies after.to_set().contains(
                o,
            ) by {
                if o == owners[count] {
                    assert(after[count] == o);
                } else {
                    let i = choose|i: int| 0 <= i < before.len() && before[i] == o;
                    assert(after[i] == o);
                }
            }
        }
    }
}

/// Without filters, the candidates hold as many documents as were asked for, or all
/// there are, whichever embeddings rank first: `owners` names the owner of each stored
/// embedding, in the order in which the vector index ranks them.
pub proof fn law_candidates_hold_the_samples(owners: Seq<int>, samples: u64)
    requires
        owners.len() <= u64::MAX,
    ensures
        ({
            let limit = candidates_needed(
                owners.len() as u64,
                owner_count(owners) as u64,
                samples,
                false,
            );
            let candidates = owners.take(
                if limit < owners.len() {
                    limit
                } else {
                    owners.len() as int
                },
            );
            owner_count(candidates) >= samples || owner_count(candidates) == owner_count(owners)
        }),
{
    let limit = candidates_needed(
        owners.len() as u64,
        owner_count(owners) as u64,
        samples,
        false,
    );
    lemma_owners_left(owners, owners.len() as int);
    if limit < owners.len() {
        lemma_owners_left(owners, limit);
    } else {
        assert(owners.take(owners.len() as int) =~= owners);
    }
}

/// Without filters, the first embedding of each of the first `samples` documents is among
/// the candidates: one that ranks before all others of its document, and has fewer than
/// `samples` documents ranking before it. First is meant in the order of the vector index,
/// which ranks by its own metric, also where the store scores by another.
pub proof fn law_first_documents_are_candidates(owners: Seq<int>, samples: u64, rank: int)
    requires
        owners.len() <= u64::MAX,
        0 <= rank < owners.len(),
        !owners.take(rank).contains(owners[rank]),
        owner_count(owners.take(rank)) < samples,
    ensures
        rank < candidates_needed(
            owners.len() as u64,
            owner_count(owners) as u64,
            samples,
            false,
        ),
{
    let limit = candidates_needed(
        owners.len() as u64,
        owner_count(owners) as u64,
        samples,
        false,
    );
    lemma_owners_left(owners, owners.len() as int);
    if limit <= rank {
        law_candidates_hold_the_samples(owners, samples);
        let candidates = owners.take(limit);
        let before = owners.take(rank);
        assert(candidates.to_set().subset_of(before.to_set())) by {
            assert forall|o: int| candidates.to_set().contains(o) implies before.to_set().contains(
                o,
            ) by {
                let i = choose|i: int| 0 <= i < candidates.len() && candidates[i] == o;
                assert(before[i] == o);
            }
        }
        lemma_len_subset(candidates.to_set(), before.to_set());
        // So the candidates are of all documents, and so are the embeddings before this
        // one.
        assert(before.to_set().subset_of(owners.to_set())) by {
            assert forall|o: int| before.to_set().contains(o) implies owners.to_set().contains(
                o,
            ) by {
                let i = choose|i: int| 0 <= i < before.len() && before[i] == o;
                assert(owners[i] == o);
            }
        }
        lemma_len_subset(before.to_set(), owners.to_set());
        lemma_subset_equality(before.to_set(), owners.to_set());
        assert(owners.contains(owners[rank]));
        assert(owners.to_set().contains(owners[rank]));
        assert(before.to_set().contains(owners[rank]));
    }
}

/// With filters, every stored embedding is a candidate.
pub proof fn law_filters_see_every_embedding(embeddings: u64, documents: u64, samples: u64)
    requires
        samples > 0,
    ensures
        candidates_needed(embeddings, documents, samples, true) >= embeddings,
{
}

/// Without filters, where some document owns several embeddings, no more candidates are
/// taken than there are embeddings.
pub proof fn law_candidates_within_the_store(embeddings: u64, documents: u64, samples: u64)
    requires
        embeddings > documents,
    ensures
        candidates_needed(embeddings, documents, samples, false) <= embeddings,
{
}

/// The ranking that crowds out most: one document owns all the extra embeddings, and
/// these come first.
spec fn crowded(embeddings: int, documents: int) -> Seq<int> {
    Seq::new(
        embeddings as nat,
        |i: int|
            if i <= embeddings - documents {
                0
            } else {
                i - (embeddings - documents)
            },
    )
}

proof fn lemma_crowded(embeddings: int, documents: int, count: int)
    requires
        0 < documents < embeddings,
        embeddings - documents < count <= embeddings,
    ensures
        owner_count(crowded(embeddings, documents).take(count)) == count - (embeddings - documents),
{
    let prefix = crowded(embeddings, documents).take(count);
    let extra = embeddings - documents;
    lemma_int_range(0, count - extra);
    assert(prefix.to_set() =~= set_int_range(0, count - extra)) by {
        assert forall|o: int| prefix.to_set().contains(o) implies set_int_range(
            0,
            count - extra,
        ).contains(o) by {
            let i = choose|i: int| 0 <= i < prefix.len() && prefix[i] == o;
        }
        assert forall|o: int| set_int_range(0, count - extra).contains(o) implies prefix.to_set().contains(
            o,
        ) by {
            assert(prefix[o + extra] == o);
        }
    }
}

/// The number of candidates is tight: where some document owns several embeddings and at
/// least two documents are wanted and stored, there is a ranking for which one candidate
/// less would not do.
pub proof fn law_candidate_limit_is_tight(embeddings: u64, documents: u64, samples: u64)
    requires
        embeddings > documents,
        samples >= 2,
        documents >= 2,
    ensures
        exists|owners: Seq<int>|
            #![trigger owner_count(owners)]
            owners.len() == embeddings && owner_count(owners) == documents && ({
                let fewer = owners.take(
                    candidates_needed(embeddings, documents, samples, false) - 1,
                );
                owner_count(fewer) < samples && owner_count(fewer) < documents
            }),
{
    let owners = crowded(embeddings as int, documents as int);
    let limit = candidates_needed(embeddings, documents, samples, false);
    assert(owners.take(embeddings as int) =~= owners);
    lemma_crowded(embeddings as int, documents as int, embeddings as int);
    lemma_crowded(embeddings as int, documents as int, limit - 1);
}

/// However many candidates are taken: none where no documents are asked for; with filters at
/// least every embedding; without, as many as documents are asked for, or every embedding; and
/// never more than both call for.
pub proof fn law_candidate_limit_serves_the_request(
    embeddings: u64,
    documents: u64,
    samples: u64,
    filtered: u64,
    unfiltered: u64,
    unknown: u64,
)
    requires
        call_ensures(candidate_limit, (Some((embeddings, documents)), samples, true), filtered),
        call_ensures(
            candidate_limit,
            (Some((embeddings, documents)), samples, false),
            unfiltered,
        ),
        call_ensures(candidate_limit, (None::<(u64, u64)>, samples, true), unknown),
    ensures
        samples == 0 ==> filtered == 0 && unfiltered == 0,
        samples > 0 ==> filtered >= embeddings && filtered >= samples,
        filtered <= embeddings || filtered <= samples,
        samples > 0 ==> unfiltered >= samples || unfiltered >= embeddings,
        unfiltered <= embeddings || unfiltered <= samples,
        samples > 0 && embeddings > documents && samples < documents ==> unfiltered - samples
            == embeddings - documents,
        unknown == samples,
{
}

/// The counts are taken as the query returned them, but for negative ones.
pub proof fn law_counts_are_taken_as_returned(
    embeddings: i64,
    documents: i64,
    counts: Result<(u64, u64), StoreError>,
)
    requires
        call_ensures(embedding_counts, (Some((embeddings, documents)),), counts),
    ensures
        counts matches Ok((e, d)) && (embeddings >= 0 ==> e == embeddings) && (embeddings < 0
            ==> e == 0) && (documents >= 0 ==> d == documents) && (documents < 0 ==> d == 0),
{
}

} // verus!
