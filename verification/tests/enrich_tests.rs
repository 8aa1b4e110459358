use firehose_indexer::enrich::{assemble, build_payload, DropReason, EnrichOutcome};
use firehose_indexer::filter::{filter, AcceptedRecord, FilterOutcome};
use firehose_indexer::sentiment::{Polarity, PolarityBits};
use serde_json::Value;

fn accepted(raw: &str) -> AcceptedRecord {
    match filter(raw, "en") {
        FilterOutcome::Accept(record) => record,
        other => panic!("expected an accept, got {:?}", other),
    }
}

fn polarity(neg: f64, neu: f64, pos: f64, compound: f64) -> Polarity {
    Polarity {
        bits: PolarityBits {
            neg: neg.to_bits(),
            neu: neu.to_bits(),
            pos: pos.to_bits(),
            compound: compound.to_bits(),
        },
        neg: Value::from(neg),
        neu: Value::from(neu),
        pos: Value::from(pos),
        compound: Value::from(compound),
    }
}

const EVENT: &str = r#"{"kind":"commit","did":"did:plc:abc","commit":{"operation":"create","record":{"text":"hello world","langs":["en"]}}}"#;

#[test]
fn payload_without_sentiment_is_the_document() {
    let record = accepted(EVENT);
    let payload = build_payload(&record, None);
    let expected: Value = serde_json::from_str(EVENT).unwrap();
    assert_eq!(Value::Object(payload), expected);
}

#[test]
fn payload_with_sentiment_adds_five_fields() {
    let record = accepted(EVENT);
    let payload = build_payload(&record, Some(polarity(0.1, 0.7, 0.2, 0.5)));
    assert_eq!(payload.len(), 8);
    assert_eq!(payload["sentiment"], Value::from(1));
    assert_eq!(payload["neg"], Value::from(0.1));
    assert_eq!(payload["neu"], Value::from(0.7));
    assert_eq!(payload["pos"], Value::from(0.2));
    assert_eq!(payload["compound"], Value::from(0.5));
    assert_eq!(payload["kind"], Value::from("commit"));
    assert_eq!(payload["did"], Value::from("did:plc:abc"));
    assert_eq!(payload["commit"]["record"]["text"], Value::from("hello world"));
}

#[test]
fn negative_compound_gives_minus_one() {
    let record = accepted(EVENT);
    let payload = build_payload(&record, Some(polarity(0.6, 0.4, 0.0, -0.3)));
    assert_eq!(payload["sentiment"], Value::from(-1));
}

#[test]
fn tiny_compound_gives_zero() {
    let record = accepted(EVENT);
    let payload = build_payload(&record, Some(polarity(0.0, 1.0, 0.0, 1e-7)));
    assert_eq!(payload["sentiment"], Value::from(0));
    assert_eq!(payload["compound"], Value::from(1e-7));
}

#[test]
fn sentiment_fields_overwrite_members_of_the_same_name() {
    let raw = r#"{"kind":"commit","sentiment":"mine","neg":"n","neu":"u","pos":"p","compound":"c","commit":{"operation":"create","record":{"text":"hello world","langs":["en"]}}}"#;
    let record = accepted(raw);
    let payload = build_payload(&record, Some(polarity(0.25, 0.5, 0.25, 0.0)));
    assert_eq!(payload.len(), 7);
    assert_eq!(payload["sentiment"], Value::from(0));
    assert_eq!(payload["neg"], Value::from(0.25));
    assert_eq!(payload["neu"], Value::from(0.5));
    assert_eq!(payload["pos"], Value::from(0.25));
    assert_eq!(payload["compound"], Value::from(0.0));
    assert_eq!(payload["commit"]["record"]["text"], Value::from("hello world"));
}

#[test]
fn payload_of_a_document_that_is_no_object_is_empty() {
    let record = AcceptedRecord { document: Value::from(3), lang: "en".to_string(), text: "x".to_string() };
    assert!(build_payload(&record, None).is_empty());
}

#[test]
fn payload_does_not_alter_the_record() {
    let record = accepted(EVENT);
    let _ = build_payload(&record, Some(polarity(0.0, 1.0, 0.0, 0.0)));
    let expected: Value = serde_json::from_str(EVENT).unwrap();
    assert_eq!(record.document, expected);
}

#[test]
fn assemble_drops_a_record_without_embedding() {
    let record = accepted(EVENT);
    let outcome = assemble(&record, None, None, "id".to_string());
    assert!(matches!(outcome, EnrichOutcome::Dropped(DropReason::EmbeddingMiss)));
}

#[test]
fn assemble_forms_one_point() {
    let record = accepted(EVENT);
    let vector = vec![1.5f32.to_bits(), (-2.0f32).to_bits(), 0];
    match assemble(&record, Some(vector.clone()), Some(polarity(0.0, 1.0, 0.0, 0.0)), "point-1".to_string()) {
        EnrichOutcome::Store(point) => {
            assert_eq!(point.id, "point-1");
            assert_eq!(point.vector, vector);
            assert_eq!(point.payload["sentiment"], Value::from(0));
            assert_eq!(point.payload["commit"]["record"]["text"], Value::from("hello world"));
        }
        other => panic!("expected a point, got {:?}", other),
    }
}
