//! The event filter: which raw events are post creations in the target
//! language with a non-empty text.

use vstd::prelude::*;
use crate::json::{JsonModel, json_model, parsed_json, parse_document, member, string_of, elements_of};

verus! {

/// The first acceptance test that an event fails.
#[derive(Clone, Copy, Debug, PartialEq, Eq, Structural)]
pub enum SkipReason {
    /// `kind` is not the string `commit`.
    NotCommit,
    /// `commit.operation` is not the string `create`.
    NotCreate,
    /// `commit.record.langs` is missing, no array, or not of length one.
    LangsShape,
    /// The single language is not the target language.
    WrongLanguage,
    /// `commit.record.text` is missing, no string, or empty.
    NoText,
}

/// What the acceptance tests say of a document.
pub enum Verdict {
    Accept,
    Skip(SkipReason),
}

/// The `commit.record` member of a document.
pub open spec fn record_of(doc: JsonModel) -> JsonModel {
    doc.member("commit"@).member("record"@)
}

/// The text of an accepted document.
pub open spec fn text_of(doc: JsonModel) -> Seq<char> {
    match record_of(doc).member("text"@) {
        JsonModel::Str(t) => t,
        _ => Seq::empty(),
    }
}

/// The acceptance tests, in order; the first that fails gives the reason.
pub open spec fn verdict(doc: JsonModel, lang: Seq<char>) -> Verdict {
    if doc.member("kind"@) != JsonModel::Str("commit"@) {
        Verdict::Skip(SkipReason::NotCommit)
    } else if doc.member("commit"@).member("operation"@) != JsonModel::Str("create"@) {
        Verdict::Skip(SkipReason::NotCreate)
    } else {
        match record_of(doc).member("langs"@) {
            JsonModel::Array(langs) => {
                if langs.len() != 1 {
                    Verdict::Skip(SkipReason::LangsShape)
                } else if langs[0] != JsonModel::Str(lang) {
                    Verdict::Skip(SkipReason::WrongLanguage)
                } else {
                    match record_of(doc).member("text"@) {
                        JsonModel::Str(t) => if t.len() == 0 {
                            Verdict::Skip(SkipReason::NoText)
                        } else {
                            Verdict::Accept
                        },
                        _ => Verdict::Skip(SkipReason::NoText),
                    }
                }
            },
            _ => Verdict::Skip(SkipReason::LangsShape),
        }
    }
}

/// An event that passed every acceptance test, with what is needed
/// downstream: the whole document and its text.
#[derive(Debug)]
pub struct AcceptedRecord {
    /// The event as it was received.
    pub document: serde_json::Value,
    /// The language that the event was accepted for.
    pub lang: String,
    /// The post's text.
    pub text: String,
}

impl AcceptedRecord {
    /// The document passes the tests for `lang`, and `text` is its text.
    pub open spec fn wf(&self) -> bool {
        &&& verdict(json_model(self.document), self.lang@) is Accept
        &&& self.text@ == text_of(json_model(self.document))
    }
}

/// The result of filtering one raw event.
#[derive(Debug)]
pub enum FilterOutcome {
    Accept(AcceptedRecord),
    Skip(SkipReason),
    ParseError,
}

/// What `filter_document` owes for a document and a target language.
pub open spec fn filtered(r: FilterOutcome, doc: JsonModel, lang: Seq<char>) -> bool {
    match verdict(doc, lang) {
        Verdict::Accept => r matches FilterOutcome::Accept(rec)
            && json_model(rec.document) == doc
            && rec.lang@ == lang
            && rec.text@ == text_of(doc),
        Verdict::Skip(reason) => r matches FilterOutcome::Skip(x) && x == reason,
    }
}

/// The content of an optional value: `Null` stands for a missing one.
pub open spec fn content(o: Option<&serde_json::Value>) -> JsonModel {
    match o {
        Some(v) => json_model(*v),
        None => JsonModel::Null,
    }
}

/// Whether two texts are equal.
pub fn same_text(a: &str, b: &str) -> (r: bool)
    ensures
        r == (a@ == b@),
{
    a.to_owned() == b.to_owned()
}

fn child<'a>(o: Option<&'a serde_json::Value>, key: &str) -> (r: Option<&'a serde_json::Value>)
    ensures
        content(r) == content(o).member(key@),
{
    match o {
        Some(v) => member(v, key),
        None => None,
    }
}

fn holds_text(o: Option<&serde_json::Value>, expected: &str) -> (r: bool)
    ensures
        r == (content(o) == JsonModel::Str(expected@)),
{
    match o {
        Some(v) => match string_of(v) {
            Some(s) => same_text(s, expected),
            None => false,
        },
        None => false,
    }
}

fn single_language(langs: Option<&serde_json::Value>, lang: &str) -> (r: Result<(), SkipReason>)
    ensures
        match content(langs) {
            JsonModel::Array(a) => if a.len() != 1 {
                r == Err::<(), SkipReason>(SkipReason::LangsShape)
            } else if a[0] != JsonModel::Str(lang@) {
                r == Err::<(), SkipReason>(SkipReason::WrongLanguage)
            } else {
                r is Ok
            },
            _ => r == Err::<(), SkipReason>(SkipReason::LangsShape),
        },
{
    let list = match langs {
        Some(v) => elements_of(v),
        None => None,
    };
    match list {
        None => Err(SkipReason::LangsShape),
        Some(a) => {
            if a.len() != 1 {
                Err(SkipReason::LangsShape)
            } else if !holds_text(Some(&a[0]), lang) {
                Err(SkipReason::WrongLanguage)
            } else {
                Ok(())
            }
        },
    }
}

fn classify(doc: &serde_json::Value, lang: &str) -> (r: Result<String, SkipReason>)
    ensures
        match verdict(json_model(*doc), lang@) {
            Verdict::Accept => r matches Ok(t) && t@ == text_of(json_model(*doc)),
            Verdict::Skip(reason) => r matches Err(x) && x == reason,
        },
{
    let root = Some(doc);
    if !holds_text(child(root, "kind"), "commit") {
        return Err(SkipReason::NotCommit);
    }
    let commit = child(root, "commit");
    if !holds_text(child(commit, "operation"), "create") {
        return Err(SkipReason::NotCreate);
    }
    let record = child(commit, "record");
    match single_language(child(record, "langs"), lang) {
        Err(reason) => Err(reason),
        Ok(_) => {
            let text = match child(record, "text") {
                Some(v) => string_of(v),
                None => None,
            };
            match text {
                Some(t) => if t.is_empty() {
                    Err(SkipReason::NoText)
                } else {
                    Ok(t.to_owned())
                },
                None => Err(SkipReason::NoText),
            }
        },
    }
}

/// Applies the acceptance tests to a parsed event.
pub fn filter_document(doc: serde_json::Value, lang: &str) -> (r: FilterOutcome)
    ensures
        filtered(r, json_model(doc), lang@),
        r matches FilterOutcome::Accept(rec) ==> rec.wf(),
{
    match classify(&doc, lang) {
        Ok(text) => FilterOutcome::Accept(AcceptedRecord { document: doc, lang: lang.to_owned(), text }),
        Err(reason) => FilterOutcome::Skip(reason),
    }
}

/// Filters one raw event: a text that is no JSON document is a parse
/// error; a document is accepted or skipped as the acceptance tests say.
pub fn filter(raw: &str, lang: &str) -> (r: FilterOutcome)
    ensures
        match parsed_json(raw@) {
            None => r is ParseError,
            Some(doc) => filtered(r, doc, lang@),
        },
        r matches FilterOutcome::Accept(rec) ==> rec.wf(),
{
    match parse_document(raw) {
        Err(_) => FilterOutcome::ParseError,
        Ok(doc) => filter_document(doc, lang),
    }
}

} // verus!
