//! The embedding provider: a pretrained fastText table of `finalfusion`.
//!
//! A vector is held as the bits of its single-precision components.

use vstd::prelude::*;

verus! {

/// `finalfusion::embeddings::Embeddings`, carried through as it is.
#[verifier::external_type_specification]
#[verifier::external_body]
#[verifier::reject_recursive_types(V)]
#[verifier::reject_recursive_types(S)]
pub struct ExEmbeddings<V, S>(finalfusion::embeddings::Embeddings<V, S>);

/// `finalfusion::vocab::SubwordVocab`, named by the table's type.
#[verifier::external_type_specification]
#[verifier::external_body]
#[verifier::reject_recursive_types(I)]
pub struct ExSubwordVocab<I>(finalfusion::vocab::SubwordVocab<I>);

/// `finalfusion::compat::fasttext::FastTextIndexer`, named by the
/// table's type.
#[verifier::external_type_specification]
#[verifier::external_body]
pub struct ExFastTextIndexer(finalfusion::compat::fasttext::FastTextIndexer);

/// `finalfusion::storage::NdArray`, named by the table's type.
#[verifier::external_type_specification]
#[verifier::external_body]
pub struct ExNdArray(finalfusion::storage::NdArray);

/// A fastText table held in memory.
pub type Table = finalfusion::embeddings::Embeddings<finalfusion::vocab::FastTextSubwordVocab, finalfusion::storage::NdArray>;

/// The number of components of each embedding in a table.
pub uninterp spec fn table_dims(table: Table) -> nat;

/// The embedding that a table holds or derives for a text, if any.
pub uninterp spec fn table_embedding(table: Table, text: Seq<char>) -> Option<Seq<u32>>;

/// The shortest n-gram that the table's vocabulary hashes.
pub uninterp spec fn ngram_min(table: Table) -> nat;

/// The longest n-gram that the table's vocabulary hashes.
pub uninterp spec fn ngram_max(table: Table) -> nat;

/// The number of buckets that the table's vocabulary hashes n-grams into.
pub uninterp spec fn bucket_count(table: Table) -> nat;

/// Whether a lookup in the table is defined for every text: the n-gram
/// lengths form a range that starts above zero, and there is a bucket to
/// hash into.
pub open spec fn usable(table: Table) -> bool {
    &&& 1 <= ngram_min(table) <= ngram_max(table)
    &&& 1 <= bucket_count(table)
}

/// `Indexer::upper_bound` of the indexer of the table's vocabulary: for
/// the fastText indexer, its number of buckets.
#[verifier::external_body]
pub(crate) fn buckets(table: &Table) -> (r: u64)
    ensures
        r == bucket_count(*table),
{
    finalfusion::subword::Indexer::upper_bound(table.vocab().indexer())
}

/// `SubwordVocab::min_n` of the table's vocabulary.
#[verifier::external_body]
pub(crate) fn shortest_ngram(table: &Table) -> (r: u32)
    ensures
        r == ngram_min(*table),
{
    table.vocab().min_n()
}

/// `SubwordVocab::max_n` of the table's vocabulary.
#[verifier::external_body]
pub(crate) fn longest_ngram(table: &Table) -> (r: u32)
    ensures
        r == ngram_max(*table),
{
    table.vocab().max_n()
}

/// `Embeddings::dims`: the width of the table.
#[verifier::external_body]
pub(crate) fn dimension(table: &Table) -> (r: usize)
    ensures
        r == table_dims(*table),
{
    table.dims()
}

/// `Embeddings::embedding`, each component handed on by `to_bits`: the
/// table's embedding of the text, which has the table's width, or `None`
/// where the vocabulary gives the text no index. The n-gram extraction
/// asserts the range that `usable` states, and the indexer divides by the
/// number of buckets.
#[verifier::external_body]
pub(crate) fn embed(table: &Table, text: &str) -> (r: Option<Vec<u32>>)
    requires
        usable(*table),
    ensures
        match r {
            Some(v) => table_embedding(*table, text@) == Some(v@) && v@.len() == table_dims(*table),
            None => table_embedding(*table, text@) is None,
        },
{
    table.embedding(text).map(|e| e.iter().map(|x| x.to_bits()).collect())
}

} // verus!
