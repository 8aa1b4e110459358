//! The pipeline driver: configuration, the processor that takes one raw
//! event through filter and enrichment, and the state machine that tells
//! the surrounding loop what to do next.

use vstd::prelude::*;
use crate::json::{JsonModel, json_model, object_model, parsed_json};
use crate::filter::{FilterOutcome, SkipReason, Verdict, filter, text_of, verdict};
use crate::sentiment::{PolarityBits, polarity_scores};
use crate::embedding::{Table, buckets, dimension, embed, longest_ngram, shortest_ngram, table_dims, table_embedding, usable};
use crate::enrich::{DropReason, EnrichOutcome, Point, assemble, bits_of, fresh_id, payload_of, well_formed_id};
use crate::filter::AcceptedRecord;

verus! {

/// What the pipeline is set up with.
#[derive(Debug)]
pub struct Config {
    /// The endpoint of the subscription stream.
    pub endpoint: String,
    /// The address of the vector store.
    pub store_url: String,
    /// The file that holds the embedding table.
    pub model_path: String,
    /// The language code that an event must carry alone.
    pub language: String,
    /// The collection that points are written to.
    pub collection: String,
    /// The number of components of every stored vector.
    pub dimension: usize,
    /// Whether sentiment fields are added to the payload.
    pub sentiment: bool,
}

/// What is wrong with a configuration.
#[derive(Clone, Copy, Debug, PartialEq, Eq, Structural)]
pub enum ConfigError {
    EmptyEndpoint,
    EmptyStoreUrl,
    EmptyModelPath,
    EmptyLanguage,
    EmptyCollection,
    ZeroDimension,
}

impl Config {
    /// The first fault of a configuration, in the order of its fields;
    /// `None` for a valid one.
    pub open spec fn fault(&self) -> Option<ConfigError> {
        if self.endpoint@.len() == 0 {
            Some(ConfigError::EmptyEndpoint)
        } else if self.store_url@.len() == 0 {
            Some(ConfigError::EmptyStoreUrl)
        } else if self.model_path@.len() == 0 {
            Some(ConfigError::EmptyModelPath)
        } else if self.language@.len() == 0 {
            Some(ConfigError::EmptyLanguage)
        } else if self.collection@.len() == 0 {
            Some(ConfigError::EmptyCollection)
        } else if self.dimension == 0 {
            Some(ConfigError::ZeroDimension)
        } else {
            None
        }
    }

    /// A local stream of post creations, a local store, English posts,
    /// the collection `bluesky`, 300 components, sentiment enabled.
    pub fn standard() -> (c: Config)
        ensures
            c.endpoint@ == "ws://localhost:6008/subscribe?wantedCollections=app.bsky.feed.post"@,
            c.store_url@ == "http://localhost:6334"@,
            c.model_path@ == "cc.en.300.bin"@,
            c.language@ == "en"@,
            c.collection@ == "bluesky"@,
            c.dimension == 300,
            c.sentiment,
    {
        Config {
            endpoint: "ws://localhost:6008/subscribe?wantedCollections=app.bsky.feed.post".to_owned(),
            store_url: "http://localhost:6334".to_owned(),
            model_path: "cc.en.300.bin".to_owned(),
            language: "en".to_owned(),
            collection: "bluesky".to_owned(),
            dimension: 300,
            sentiment: true,
        }
    }

    /// Checks a configuration: the first fault is the error.
    pub fn validate(&self) -> (r: Result<(), ConfigError>)
        ensures
            match self.fault() {
                Some(e) => r == Err::<(), ConfigError>(e),
                None => r is Ok,
            },
    {
        if self.endpoint.as_str().is_empty() {
            Err(ConfigError::EmptyEndpoint)
        } else if self.store_url.as_str().is_empty() {
            Err(ConfigError::EmptyStoreUrl)
        } else if self.model_path.as_str().is_empty() {
            Err(ConfigError::EmptyModelPath)
        } else if self.language.as_str().is_empty() {
            Err(ConfigError::EmptyLanguage)
        } else if self.collection.as_str().is_empty() {
            Err(ConfigError::EmptyCollection)
        } else if self.dimension == 0 {
            Err(ConfigError::ZeroDimension)
        } else {
            Ok(())
        }
    }

    /// The collection to create at startup: the configured name and
    /// dimension, cosine similarity, scalar quantization.
    pub fn collection_request(&self) -> (r: CollectionRequest)
        ensures
            r.name@ == self.collection@,
            r.dimension == self.dimension,
            r.metric == Metric::Cosine,
            r.quantization == Quantization::Scalar,
    {
        CollectionRequest {
            name: self.collection.clone(),
            dimension: self.dimension,
            metric: Metric::Cosine,
            quantization: Quantization::Scalar,
        }
    }
}

/// How the similarity of two vectors is measured.
#[derive(Clone, Copy, Debug, PartialEq, Eq, Structural)]
pub enum Metric {
    Cosine,
}

/// How the store compresses vector components.
#[derive(Clone, Copy, Debug, PartialEq, Eq, Structural)]
pub enum Quantization {
    Scalar,
}

/// What the collection is created with at startup.
#[derive(Debug)]
pub struct CollectionRequest {
    pub name: String,
    pub dimension: usize,
    pub metric: Metric,
    pub quantization: Quantization,
}

/// Why a processor cannot be built from a table and a configuration.
#[derive(Clone, Copy, Debug, PartialEq, Eq, Structural)]
pub enum SetupError {
    /// The configuration has a fault.
    InvalidConfig(ConfigError),
    /// The table's n-gram lengths form no range above zero, or it has no
    /// bucket to hash n-grams into.
    NoSubwords,
    /// The table's width is not the configured dimension.
    DimensionMismatch,
}

/// The embedding table and the configuration, built once at startup.
pub struct Processor {
    pub table: Table,
    pub config: Config,
}

/// The result of taking one raw event through filter and enrichment.
#[derive(Debug)]
pub enum ProcessOutcome {
    /// The text is no JSON document.
    ParseError,
    /// The event fails an acceptance test.
    Skipped(SkipReason),
    /// The event was accepted and has no embedding.
    Dropped { text: String, reason: DropReason },
    /// The event was accepted and enriched: the point is to be stored.
    Store { text: String, point: Point },
}

/// Whether a payload is that of a document: with sentiment enabled, the
/// document's members with the sentiment fields of some scores merged
/// over them; otherwise the document's members.
pub open spec fn payload_for(payload: Map<Seq<char>, JsonModel>, doc: JsonModel, sentiment: bool) -> bool {
    if sentiment {
        exists|p: PolarityBits| payload == #[trigger] payload_of(doc, Some(p))
    } else {
        payload == payload_of(doc, None)
    }
}

/// Whether a point is one that a configuration gives a document of the
/// given embedding.
pub open spec fn point_for(p: Point, doc: JsonModel, v: Seq<u32>, config: Config) -> bool {
    &&& well_formed_id(p.id@)
    &&& p.vector@ == v
    &&& p.vector@.len() == config.dimension
    &&& payload_for(object_model(p.payload), doc, config.sentiment)
}

impl Processor {
    /// The configuration is valid, and every lookup in the table is
    /// defined and gives a vector of the configured dimension.
    pub open spec fn wf(&self) -> bool {
        &&& self.config.fault() is None
        &&& usable(self.table)
        &&& table_dims(self.table) == self.config.dimension
    }

    /// What `enrich` owes for a document and its text.
    pub open spec fn enriched(&self, r: EnrichOutcome, doc: JsonModel, text: Seq<char>) -> bool {
        match table_embedding(self.table, text) {
            None => r matches EnrichOutcome::Dropped(reason) && reason == DropReason::EmbeddingMiss,
            Some(v) => r matches EnrichOutcome::Store(p) && point_for(p, doc, v, self.config),
        }
    }

    /// What `process` owes for a raw event.
    pub open spec fn processed(&self, r: ProcessOutcome, raw: Seq<char>) -> bool {
        match parsed_json(raw) {
            None => r is ParseError,
            Some(doc) => match verdict(doc, self.config.language@) {
                Verdict::Skip(why) => r matches ProcessOutcome::Skipped(x) && x == why,
                Verdict::Accept => match table_embedding(self.table, text_of(doc)) {
                    None => r matches ProcessOutcome::Dropped { text, reason }
                        && text@ == text_of(doc)
                        && reason == DropReason::EmbeddingMiss,
                    Some(v) => r matches ProcessOutcome::Store { text, point }
                        && text@ == text_of(doc)
                        && point_for(point, doc, v, self.config),
                },
            },
        }
    }

    /// Builds a processor, unless the table cannot serve the
    /// configuration.
    pub fn new(table: Table, config: Config) -> (r: Result<Processor, SetupError>)
        ensures
            match r {
                Ok(p) => p.wf() && p.table == table && p.config == config,
                Err(SetupError::InvalidConfig(e)) => config.fault() == Some(e),
                Err(SetupError::NoSubwords) => config.fault() is None && !usable(table),
                Err(SetupError::DimensionMismatch) => config.fault() is None && usable(table) && table_dims(table)
                    != config.dimension,
            },
    {
        match config.validate() {
            Err(e) => {
                return Err(SetupError::InvalidConfig(e));
            },
            Ok(_) => {},
        }
        let low = shortest_ngram(&table);
        let high = longest_ngram(&table);
        if low < 1 || low > high || buckets(&table) < 1 {
            Err(SetupError::NoSubwords)
        } else if dimension(&table) != config.dimension {
            Err(SetupError::DimensionMismatch)
        } else {
            Ok(Processor { table, config })
        }
    }

    /// Enriches an accepted record: one point, with the embedding of the
    /// text, a fresh identifier and the payload; or a drop where the text
    /// has no embedding.
    pub fn enrich(&self, record: &AcceptedRecord) -> (r: EnrichOutcome)
        requires
            self.wf(),
        ensures
            self.enriched(r, json_model(record.document), record.text@),
    {
        let embedding = embed(&self.table, record.text.as_str());
        let scores = if self.config.sentiment {
            Some(polarity_scores(record.text.as_str()))
        } else {
            None
        };
        let ghost bits = bits_of(scores);
        let r = assemble(record, embedding, scores, fresh_id());
        proof {
            if r is Store && bits is Some {
                assert(object_model(r->Store_0.payload) == payload_of(
                    json_model(record.document),
                    Some(bits->Some_0),
                ));
            }
        }
        r
    }

    /// Takes one raw event through filter and enrichment.
    pub fn process(&self, raw: &str) -> (r: ProcessOutcome)
        requires
            self.wf(),
        ensures
            self.processed(r, raw@),
    {
        match filter(raw, self.config.language.as_str()) {
            FilterOutcome::ParseError => ProcessOutcome::ParseError,
            FilterOutcome::Skip(why) => ProcessOutcome::Skipped(why),
            FilterOutcome::Accept(record) => {
                let outcome = self.enrich(&record);
                let text = record.text;
                match outcome {
                    EnrichOutcome::Dropped(reason) => ProcessOutcome::Dropped { text, reason },
                    EnrichOutcome::Store(point) => ProcessOutcome::Store { text, point },
                }
            },
        }
    }
}

} // verus!
