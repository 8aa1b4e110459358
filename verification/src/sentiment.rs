//! Sentiment scores and the discrete label derived from the compound
//! score.
//!
//! Scores are doubles. The library holds each as the 64 bits of its
//! IEEE-754 encoding and decides on those bits: among doubles that are not
//! NaN, magnitudes are ordered as their encodings without the sign bit are.

use vstd::prelude::*;
use crate::json::{JsonModel, NumberModel, json_model};

verus! {

/// The sign bit of a double.
pub const SIGN_BIT: u64 = 0x8000_0000_0000_0000;

/// The encoding of positive infinity; a larger magnitude encodes NaN.
pub const INFINITY_BITS: u64 = 0x7ff0_0000_0000_0000;

/// The encoding of the threshold, one millionth.
pub const EPSILON_BITS: u64 = 0x3eb0_c6f7_a0b5_ed8d;

/// The encoding of a double's magnitude.
pub open spec fn magnitude(bits: u64) -> u64 {
    bits & !SIGN_BIT
}

/// Whether the bits encode NaN.
pub open spec fn is_nan(bits: u64) -> bool {
    magnitude(bits) > INFINITY_BITS
}

/// Whether the bits encode a finite double.
pub open spec fn is_finite(bits: u64) -> bool {
    magnitude(bits) < INFINITY_BITS
}

/// Whether the encoded double is greater than the threshold.
pub open spec fn above_threshold(bits: u64) -> bool {
    bits & SIGN_BIT == 0 && !is_nan(bits) && magnitude(bits) > EPSILON_BITS
}

/// Whether the encoded double is less than minus the threshold.
pub open spec fn below_threshold(bits: u64) -> bool {
    bits & SIGN_BIT != 0 && !is_nan(bits) && magnitude(bits) > EPSILON_BITS
}

/// The label of a compound score: 1 above the threshold, -1 below minus
/// the threshold, 0 in between and for NaN.
pub open spec fn label_of(compound: u64) -> int {
    if above_threshold(compound) {
        1
    } else if below_threshold(compound) {
        -1
    } else {
        0
    }
}

/// The discrete sentiment label of a compound score given by its bits.
pub fn sentiment_label(compound: u64) -> (label: i8)
    ensures
        label == label_of(compound),
        label == -1 || label == 0 || label == 1,
{
    let size: u64 = compound & !SIGN_BIT;
    if size > INFINITY_BITS || size <= EPSILON_BITS {
        0
    } else if compound & SIGN_BIT == 0 {
        1
    } else {
        -1
    }
}

/// The four scores of a text, each by its bits.
#[derive(Clone, Copy, Debug, PartialEq, Eq, Structural)]
pub struct PolarityBits {
    pub neg: u64,
    pub neu: u64,
    pub pos: u64,
    pub compound: u64,
}

/// The JSON value that stands for the double with the given bits: the
/// number itself when it is finite, `Null` otherwise.
pub open spec fn float_json(bits: u64) -> JsonModel {
    if is_finite(bits) {
        JsonModel::Number(NumberModel::Float(bits))
    } else {
        JsonModel::Null
    }
}

/// The scores of a text: the bits of each, and each as a JSON value.
#[derive(Debug)]
pub struct Polarity {
    pub bits: PolarityBits,
    pub neg: serde_json::Value,
    pub neu: serde_json::Value,
    pub pos: serde_json::Value,
    pub compound: serde_json::Value,
}

impl Polarity {
    /// Each JSON value stands for the score with the bits beside it.
    pub open spec fn wf(&self) -> bool {
        &&& json_model(self.neg) == float_json(self.bits.neg)
        &&& json_model(self.neu) == float_json(self.bits.neu)
        &&& json_model(self.pos) == float_json(self.bits.pos)
        &&& json_model(self.compound) == float_json(self.bits.compound)
    }
}

/// `SentimentIntensityAnalyzer::new` and `polarity_scores`, with each of
/// the four scores handed on twice: by `to_bits`, and by `From` as a
/// `serde_json::Value`, which is a number for a finite double and `Null`
/// otherwise. Nothing is claimed of the scores themselves: the analyzer
/// walks hash maps, whose order may differ from one process to the next.
#[verifier::external_body]
pub(crate) fn polarity_scores(text: &str) -> (r: Polarity)
    ensures
        r.wf(),
{
    let analyzer = vader_sentiment::SentimentIntensityAnalyzer::new();
    let m = analyzer.polarity_scores(text);
    let (neg, neu, pos, compound) = (m["neg"], m["neu"], m["pos"], m["compound"]);
    Polarity {
        bits: PolarityBits { neg: neg.to_bits(), neu: neu.to_bits(), pos: pos.to_bits(), compound: compound.to_bits() },
        neg: serde_json::Value::from(neg),
        neu: serde_json::Value::from(neu),
        pos: serde_json::Value::from(pos),
        compound: serde_json::Value::from(compound),
    }
}

} // verus!
