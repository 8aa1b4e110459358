//! The enrichment engine: from an accepted record to the point that is
//! written to the vector index.

use vstd::prelude::*;
use crate::json::{JsonModel, NumberModel, json_model, object_model, members_of, clone_members, no_members, insert_member, integer_value};
use crate::filter::AcceptedRecord;
use crate::sentiment::{Polarity, PolarityBits, float_json, label_of, sentiment_label};

verus! {

/// The unit of storage in the vector index.
#[derive(Debug)]
pub struct Point {
    /// A freshly generated identifier.
    pub id: String,
    /// The embedding, each component by its single-precision bits.
    pub vector: Vec<u32>,
    /// The metadata stored with the vector.
    pub payload: serde_json::Map<String, serde_json::Value>,
}

/// The length of an identifier: 32 hexadecimal digits in five groups,
/// with four hyphens.
pub const ID_LENGTH: usize = 36;

/// Whether a hyphen stands at a position of an identifier.
pub open spec fn hyphen_at(i: int) -> bool {
    i == 8 || i == 13 || i == 18 || i == 23
}

/// Whether a character is a hexadecimal digit in lower case.
pub open spec fn lower_hex(c: char) -> bool {
    ('0' <= c && c <= '9') || ('a' <= c && c <= 'f')
}

/// The hyphenated form of a random identifier: digits and hyphens in
/// their places, and the version digit 4.
pub open spec fn well_formed_id(id: Seq<char>) -> bool {
    &&& id.len() == ID_LENGTH
    &&& forall|i: int| 0 <= i < id.len() ==> if hyphen_at(i) {
        (#[trigger] id[i]) == '-'
    } else {
        lower_hex(id[i])
    }
    &&& id[14] == '4'
}

/// `Uuid::new_v4` and its `to_string`: a random identifier of version 4
/// in the hyphenated lower-case form, whatever was drawn.
#[verifier::external_body]
pub(crate) fn fresh_id() -> (id: String)
    ensures
        well_formed_id(id@),
{
    uuid::Uuid::new_v4().to_string()
}

/// Why an accepted event is not stored.
#[derive(Clone, Copy, Debug, PartialEq, Eq, Structural)]
pub enum DropReason {
    /// The embedding provider has no vector for the text.
    EmbeddingMiss,
}

/// The result of enriching one accepted record.
#[derive(Debug)]
pub enum EnrichOutcome {
    Store(Point),
    Dropped(DropReason),
}

/// The members of a document; none for a document that is no object.
pub open spec fn members(doc: JsonModel) -> Map<Seq<char>, JsonModel> {
    match doc {
        JsonModel::Object(m) => m,
        _ => Map::empty(),
    }
}

/// The sentiment fields merged over the members of a document: on a key
/// that both have, the sentiment field stands.
pub open spec fn with_sentiment(base: Map<Seq<char>, JsonModel>, p: PolarityBits) -> Map<Seq<char>, JsonModel> {
    base.insert("sentiment"@, JsonModel::Number(NumberModel::Integer(label_of(p.compound))))
        .insert("neg"@, float_json(p.neg))
        .insert("neu"@, float_json(p.neu))
        .insert("pos"@, float_json(p.pos))
        .insert("compound"@, float_json(p.compound))
}

/// The payload of a document: its own members, with the sentiment fields
/// merged over them where scores are given.
pub open spec fn payload_of(doc: JsonModel, scores: Option<PolarityBits>) -> Map<Seq<char>, JsonModel> {
    match scores {
        Some(p) => with_sentiment(members(doc), p),
        None => members(doc),
    }
}

/// The bits of optional scores.
pub open spec fn bits_of(scores: Option<Polarity>) -> Option<PolarityBits> {
    match scores {
        Some(p) => Some(p.bits),
        None => None,
    }
}

/// Builds the payload of an accepted record.
pub fn build_payload(record: &AcceptedRecord, scores: Option<Polarity>) -> (payload: serde_json::Map<String, serde_json::Value>)
    requires
        scores matches Some(p) ==> p.wf(),
    ensures
        object_model(payload) == payload_of(json_model(record.document), bits_of(scores)),
{
    let mut payload = match members_of(&record.document) {
        Some(m) => clone_members(m),
        None => no_members(),
    };
    match scores {
        None => {},
        Some(p) => {
            let label = sentiment_label(p.bits.compound);
            insert_member(&mut payload, "sentiment".to_owned(), integer_value(label.into()));
            insert_member(&mut payload, "neg".to_owned(), p.neg);
            insert_member(&mut payload, "neu".to_owned(), p.neu);
            insert_member(&mut payload, "pos".to_owned(), p.pos);
            insert_member(&mut payload, "compound".to_owned(), p.compound);
        },
    }
    payload
}

/// What `assemble` owes for a record, an embedding, scores and an
/// identifier.
pub open spec fn assembled(r: EnrichOutcome, doc: JsonModel, embedding: Option<Seq<u32>>, scores: Option<PolarityBits>, id: Seq<char>) -> bool {
    match embedding {
        None => r matches EnrichOutcome::Dropped(reason) && reason == DropReason::EmbeddingMiss,
        Some(v) => r matches EnrichOutcome::Store(p)
            && p.id@ == id
            && p.vector@ == v
            && object_model(p.payload) == payload_of(doc, scores),
    }
}

/// The view of an optional vector.
pub open spec fn vector_view(embedding: Option<Vec<u32>>) -> Option<Seq<u32>> {
    match embedding {
        Some(v) => Some(v@),
        None => None,
    }
}

/// Forms the point of an accepted record from what the embedding
/// provider, the sentiment scorer and the identifier source returned. A
/// record without an embedding is dropped.
pub fn assemble(record: &AcceptedRecord, embedding: Option<Vec<u32>>, scores: Option<Polarity>, id: String) -> (r: EnrichOutcome)
    requires
        scores matches Some(p) ==> p.wf(),
    ensures
        assembled(r, json_model(record.document), vector_view(embedding), bits_of(scores), id@),
{
    match embedding {
        None => EnrichOutcome::Dropped(DropReason::EmbeddingMiss),
        Some(vector) => {
            let payload = build_payload(record, scores);
            EnrichOutcome::Store(Point { id, vector, payload })
        },
    }
}

} // verus!
