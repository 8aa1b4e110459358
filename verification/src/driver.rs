//! The driver's state machine. The surrounding loop performs each action
//! (read the next frame, write a batch to the store) and hands back what
//! happened; the decisions are taken here.

use vstd::prelude::*;
use crate::filter::Verdict;
use crate::filter::{text_of, verdict};
use crate::json::parsed_json;
use crate::embedding::table_embedding;
use crate::enrich::Point;
use crate::pipeline::{ProcessOutcome, Processor, point_for};

verus! {

/// Where the driver stands.
#[derive(Clone, Copy, Debug, PartialEq, Eq, Structural)]
pub enum DriverState {
    Starting,
    Running,
    Terminated,
}

/// What ends the pipeline.
#[derive(Clone, Copy, Debug, PartialEq, Eq, Structural)]
pub enum Fatal {
    /// The model, the scorer or the store client could not be built.
    Construction,
    /// The transport failed to connect or to read.
    Transport,
    /// The store refused an upsert.
    Store,
}

/// How the bootstrap of the collection went.
#[derive(Clone, Copy, Debug, PartialEq, Eq, Structural)]
pub enum Bootstrap {
    Created,
    AlreadyExists,
    Failed,
}

/// What the loop reports to the driver.
#[derive(Debug)]
pub enum Event {
    /// A text frame arrived.
    TextFrame(String),
    /// A frame of another kind arrived.
    OtherFrame,
    /// The transport failed.
    TransportFailed,
    /// The store answered an upsert: `true` for success.
    Upserted(bool),
}

/// What the loop is to do next.
#[derive(Debug)]
pub enum Action {
    /// Read the next frame.
    Receive,
    /// Write the batch to the collection, then report `Upserted`.
    Upsert { collection: String, points: Vec<Point> },
    /// Stop with a fatal error.
    Halt(Fatal),
    /// Nothing: the event does not belong to the state.
    Idle,
}

/// What the loop is to print.
#[derive(Debug)]
pub enum Diagnostic {
    /// The text of an event that is being stored.
    Processed(String),
    /// The text of an event that has no embedding.
    EmbeddingMiss(String),
    /// A frame that is no JSON document.
    ParseError,
    /// The collection could not be created.
    BootstrapFailed,
}

/// One decision of the driver.
#[derive(Debug)]
pub struct Step {
    pub next: DriverState,
    pub action: Action,
    pub diagnostic: Option<Diagnostic>,
}

/// What the driver decides on the outcome of one raw event: a point is
/// written as a batch of one; anything else goes on to the next frame.
pub open spec fn planned(r: Step, outcome: ProcessOutcome, collection: Seq<char>) -> bool {
    &&& r.next == DriverState::Running
    &&& match outcome {
        ProcessOutcome::ParseError => r.action is Receive && r.diagnostic == Some(Diagnostic::ParseError),
        ProcessOutcome::Skipped(_) => r.action is Receive && r.diagnostic is None,
        ProcessOutcome::Dropped { text, reason } => r.action is Receive
            && r.diagnostic == Some(Diagnostic::EmbeddingMiss(text)),
        ProcessOutcome::Store { text, point } => r.action matches Action::Upsert { collection: c, points }
            && c@ == collection
            && points@ == seq![point]
            && r.diagnostic == Some(Diagnostic::Processed(text)),
    }
}

/// What the driver decides on a text frame.
pub open spec fn text_step(r: Step, processor: Processor, raw: Seq<char>) -> bool {
    &&& r.next == DriverState::Running
    &&& match parsed_json(raw) {
        None => r.action is Receive && r.diagnostic == Some(Diagnostic::ParseError),
        Some(doc) => match verdict(doc, processor.config.language@) {
            Verdict::Skip(_) => r.action is Receive && r.diagnostic is None,
            Verdict::Accept => match table_embedding(processor.table, text_of(doc)) {
                None => {
                    &&& r.action is Receive
                    &&& r.diagnostic matches Some(Diagnostic::EmbeddingMiss(t)) && t@ == text_of(doc)
                },
                Some(v) => {
                    &&& r.action matches Action::Upsert { collection, points }
                        && collection@ == processor.config.collection@
                        && points@.len() == 1
                        && point_for(points@[0], doc, v, processor.config)
                    &&& r.diagnostic matches Some(Diagnostic::Processed(t)) && t@ == text_of(doc)
                },
            },
        },
    }
}

/// What the driver decides in a state on an event.
pub open spec fn stepped(r: Step, processor: Processor, state: DriverState, event: Event) -> bool {
    match state {
        DriverState::Running => match event {
            Event::TextFrame(raw) => text_step(r, processor, raw@),
            Event::OtherFrame => r.next == DriverState::Running && r.action is Receive && r.diagnostic is None,
            Event::TransportFailed => r.next == DriverState::Terminated
                && r.action == Action::Halt(Fatal::Transport)
                && r.diagnostic is None,
            Event::Upserted(ok) => r.diagnostic is None && if ok {
                r.next == DriverState::Running && r.action is Receive
            } else {
                r.next == DriverState::Terminated && r.action == Action::Halt(Fatal::Store)
            },
        },
        _ => r.next == state && r.action is Idle && r.diagnostic is None,
    }
}

/// Leaves `Starting`: a construction failure is fatal; the bootstrap of
/// the collection is best-effort, and its failure is only reported.
pub fn on_startup(constructed: bool, bootstrap: Bootstrap) -> (r: Step)
    ensures
        !constructed ==> r.next == DriverState::Terminated
            && r.action == Action::Halt(Fatal::Construction)
            && r.diagnostic is None,
        constructed ==> r.next == DriverState::Running
            && r.action is Receive
            && (r.diagnostic == if bootstrap == Bootstrap::Failed {
                Some(Diagnostic::BootstrapFailed)
            } else {
                None::<Diagnostic>
            }),
{
    if !constructed {
        Step { next: DriverState::Terminated, action: Action::Halt(Fatal::Construction), diagnostic: None }
    } else {
        let diagnostic = match bootstrap {
            Bootstrap::Failed => Some(Diagnostic::BootstrapFailed),
            _ => None,
        };
        Step { next: DriverState::Running, action: Action::Receive, diagnostic }
    }
}

/// Decides what follows the outcome of one raw event.
pub fn plan(outcome: ProcessOutcome, collection: &str) -> (r: Step)
    ensures
        planned(r, outcome, collection@),
{
    match outcome {
        ProcessOutcome::ParseError => Step {
            next: DriverState::Running,
            action: Action::Receive,
            diagnostic: Some(Diagnostic::ParseError),
        },
        ProcessOutcome::Skipped(_) => Step { next: DriverState::Running, action: Action::Receive, diagnostic: None },
        ProcessOutcome::Dropped { text, reason } => Step {
            next: DriverState::Running,
            action: Action::Receive,
            diagnostic: Some(Diagnostic::EmbeddingMiss(text)),
        },
        ProcessOutcome::Store { text, point } => {
            let mut points: Vec<Point> = Vec::new();
            points.push(point);
            Step {
                next: DriverState::Running,
                action: Action::Upsert { collection: collection.to_owned(), points },
                diagnostic: Some(Diagnostic::Processed(text)),
            }
        },
    }
}

/// One decision: in `Running`, a text frame is processed, another frame
/// is passed over, a transport failure or a refused upsert terminates; in
/// the other states nothing is done.
pub fn on_event(processor: &Processor, state: DriverState, event: Event) -> (r: Step)
    requires
        processor.wf(),
    ensures
        stepped(r, *processor, state, event),
{
    match state {
        DriverState::Running => match event {
            Event::TextFrame(raw) => {
                let outcome = processor.process(raw.as_str());
                plan(outcome, processor.config.collection.as_str())
            },
            Event::OtherFrame => Step { next: DriverState::Running, action: Action::Receive, diagnostic: None },
            Event::TransportFailed => Step {
                next: DriverState::Terminated,
                action: Action::Halt(Fatal::Transport),
                diagnostic: None,
            },
            Event::Upserted(ok) => if ok {
                Step { next: DriverState::Running, action: Action::Receive, diagnostic: None }
            } else {
                Step { next: DriverState::Terminated, action: Action::Halt(Fatal::Store), diagnostic: None }
            },
        },
        _ => Step { next: state, action: Action::Idle, diagnostic: None },
    }
}

} // verus!
