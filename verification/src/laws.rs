//! Laws of the pipeline, stated over the models that the contracts use.

use vstd::prelude::*;
use crate::json::JsonModel;
use crate::json::{object_model, parsed_json};
use crate::filter::{SkipReason, Verdict, record_of, text_of, verdict};
use crate::sentiment::PolarityBits;
use crate::embedding::table_embedding;
use crate::enrich::{payload_of, with_sentiment, members};
use crate::pipeline::{ProcessOutcome, Processor, payload_for};
use crate::driver::{Action, DriverState, Event, Step, stepped, text_step};

verus! {

/// Whether a document fails an acceptance test for a language.
pub open spec fn rejected(doc: JsonModel, lang: Seq<char>) -> bool {
    verdict(doc, lang) is Skip
}

/// A rejected event reaches neither the embedding provider, the scorer
/// nor the store: processing it yields a skip, which carries no point,
/// and the driver's decision is to read the next frame.
pub proof fn law_rejected_goes_no_further(processor: Processor, raw: Seq<char>, doc: JsonModel, outcome: ProcessOutcome, step: Step)
    requires
        parsed_json(raw) == Some(doc),
        rejected(doc, processor.config.language@),
        processor.processed(outcome, raw),
        text_step(step, processor, raw),
    ensures
        outcome is Skipped,
        step.action is Receive,
        step.diagnostic is None,
{
}

/// An event whose `kind` is not `commit` is rejected, whatever else it
/// holds.
pub proof fn law_kind_must_be_commit(doc: JsonModel, lang: Seq<char>)
    requires
        doc.member("kind"@) != JsonModel::Str("commit"@),
    ensures
        verdict(doc, lang) == Verdict::Skip(SkipReason::NotCommit),
        rejected(doc, lang),
{
}

/// An event whose `commit.operation` is not `create` is rejected: at the
/// second test, unless it failed the first.
pub proof fn law_operation_must_be_create(doc: JsonModel, lang: Seq<char>)
    requires
        doc.member("commit"@).member("operation"@) != JsonModel::Str("create"@),
    ensures
        rejected(doc, lang),
        verdict(doc, lang) == Verdict::Skip(SkipReason::NotCommit)
            || verdict(doc, lang) == Verdict::Skip(SkipReason::NotCreate),
        doc.member("kind"@) == JsonModel::Str("commit"@) ==> verdict(doc, lang) == Verdict::Skip(
            SkipReason::NotCreate,
        ),
{
}

/// Whether `langs` is an array of exactly the target language.
pub open spec fn single_target_language(doc: JsonModel, lang: Seq<char>) -> bool {
    record_of(doc).member("langs"@) matches JsonModel::Array(a) && a.len() == 1 && a[0] == JsonModel::Str(lang)
}

/// An event whose `langs` is absent, no array, not of length one, or
/// whose single language is not the target, is rejected.
pub proof fn law_single_target_language(doc: JsonModel, lang: Seq<char>)
    requires
        !single_target_language(doc, lang),
    ensures
        rejected(doc, lang),
{
}

/// An event whose text is the empty string is rejected, whatever else it
/// holds.
pub proof fn law_empty_text_rejected(doc: JsonModel, lang: Seq<char>)
    requires
        record_of(doc).member("text"@) == JsonModel::Str(Seq::empty()),
    ensures
        rejected(doc, lang),
{
    let t = Seq::<char>::empty();
    assert(t.len() == 0);
}

/// Every point that the driver hands to the store has a vector of the
/// configured dimension.
pub proof fn law_vector_has_dimension(processor: Processor, raw: Seq<char>, step: Step)
    requires
        text_step(step, processor, raw),
    ensures
        step.action matches Action::Upsert { collection, points } ==> forall|i: int|
            0 <= i < points@.len() ==> (#[trigger] points@[i]).vector@.len() == processor.config.dimension,
{
}

/// An accepted event that has an embedding leads to exactly one upsert,
/// of exactly one point, into the configured collection.
pub proof fn law_one_point_per_event(processor: Processor, raw: Seq<char>, doc: JsonModel, step: Step)
    requires
        parsed_json(raw) == Some(doc),
        verdict(doc, processor.config.language@) is Accept,
        table_embedding(processor.table, text_of(doc)) is Some,
        text_step(step, processor, raw),
    ensures
        step.action matches Action::Upsert { collection, points } && points@.len() == 1 && collection@
            == processor.config.collection@,
{
}

/// An accepted event without an embedding leads to no upsert.
pub proof fn law_miss_is_dropped(processor: Processor, raw: Seq<char>, doc: JsonModel, step: Step)
    requires
        parsed_json(raw) == Some(doc),
        verdict(doc, processor.config.language@) is Accept,
        table_embedding(processor.table, text_of(doc)) is None,
        text_step(step, processor, raw),
    ensures
        step.action is Receive,
{
}

/// The driver only moves forward: from `Running` it stays or terminates,
/// `Terminated` is final, and nothing leads back to `Starting`.
pub proof fn law_driver_moves_forward(processor: Processor, state: DriverState, event: Event, step: Step)
    requires
        stepped(step, processor, state, event),
    ensures
        state == DriverState::Terminated ==> step.next == DriverState::Terminated,
        state == DriverState::Running ==> step.next != DriverState::Starting,
        step.action is Upsert ==> state == DriverState::Running && step.next == DriverState::Running,
        step.next == DriverState::Terminated && state == DriverState::Running ==> step.action is Halt,
{
}

/// The keys of the sentiment fields differ from each other and from
/// `commit`.
pub proof fn lemma_keys_distinct()
    ensures
        "commit"@ != "sentiment"@,
        "commit"@ != "neg"@,
        "commit"@ != "neu"@,
        "commit"@ != "pos"@,
        "commit"@ != "compound"@,
        "sentiment"@ != "neg"@,
        "sentiment"@ != "neu"@,
        "sentiment"@ != "pos"@,
        "sentiment"@ != "compound"@,
        "neg"@ != "neu"@,
        "neg"@ != "pos"@,
        "neg"@ != "compound"@,
        "neu"@ != "pos"@,
        "neu"@ != "compound"@,
        "pos"@ != "compound"@,
{
    reveal_strlit("commit");
    reveal_strlit("sentiment");
    reveal_strlit("neg");
    reveal_strlit("neu");
    reveal_strlit("pos");
    reveal_strlit("compound");
    assert("commit"@.len() == 6);
    assert("sentiment"@.len() == 9);
    assert("compound"@.len() == 8);
    assert("neg"@.len() == 3 && "neg"@[0] == 'n' && "neg"@[2] == 'g');
    assert("neu"@.len() == 3 && "neu"@[0] == 'n' && "neu"@[2] == 'u');
    assert("pos"@.len() == 3 && "pos"@[0] == 'p');
}

/// The payload of an accepted event holds the event's text, unchanged,
/// where the event held it: under `commit`, `record`, `text`. Sentiment
/// fields do not touch it.
pub proof fn law_payload_keeps_text(doc: JsonModel, lang: Seq<char>, scores: Option<PolarityBits>)
    requires
        verdict(doc, lang) is Accept,
    ensures
        text_of(doc).len() > 0,
        JsonModel::Object(payload_of(doc, scores)).member("commit"@).member("record"@).member("text"@)
            == JsonModel::Str(text_of(doc)),
{
    lemma_keys_distinct();
    assert(doc is Object);
    assert(members(doc).contains_key("commit"@));
    match scores {
        Some(p) => {
            assert(with_sentiment(members(doc), p).contains_key("commit"@));
            assert(with_sentiment(members(doc), p)["commit"@] == members(doc)["commit"@]);
        },
        None => {},
    }
}

/// Every point that the driver hands to the store for an accepted event
/// holds the event's text, unchanged, in its payload.
pub proof fn law_stored_text_round_trip(processor: Processor, raw: Seq<char>, doc: JsonModel, step: Step)
    requires
        parsed_json(raw) == Some(doc),
        text_step(step, processor, raw),
    ensures
        step.action matches Action::Upsert { collection, points } ==> points@.len() == 1 && JsonModel::Object(
            object_model(points@[0].payload),
        ).member("commit"@).member("record"@).member("text"@) == JsonModel::Str(text_of(doc)),
{
    if step.action is Upsert {
        let points = step.action->points;
        let lang = processor.config.language@;
        assert(verdict(doc, lang) is Accept);
        let payload = object_model(points@[0].payload);
        assert(payload_for(payload, doc, processor.config.sentiment));
        if processor.config.sentiment {
            let p = choose|p: PolarityBits| payload == #[trigger] payload_of(doc, Some(p));
            law_payload_keeps_text(doc, lang, Some(p));
        } else {
            law_payload_keeps_text(doc, lang, None);
        }
    }
}

/// The sentiment fields stand in the payload whatever the event held
/// under their keys.
pub proof fn law_sentiment_fields_win(base: Map<Seq<char>, JsonModel>, p: PolarityBits)
    ensures
        with_sentiment(base, p)["compound"@] == crate::sentiment::float_json(p.compound),
        with_sentiment(base, p)["sentiment"@] == JsonModel::Number(
            crate::json::NumberModel::Integer(crate::sentiment::label_of(p.compound)),
        ),
        forall|k: Seq<char>|
            k != "sentiment"@ && k != "neg"@ && k != "neu"@ && k != "pos"@ && k != "compound"@ ==> (
            with_sentiment(base, p).contains_key(k) == base.contains_key(k)),
        forall|k: Seq<char>|
            k != "sentiment"@ && k != "neg"@ && k != "neu"@ && k != "pos"@ && k != "compound"@
                && base.contains_key(k) ==> with_sentiment(base, p)[k] == base[k],
{
    lemma_keys_distinct();
}

} // verus!
