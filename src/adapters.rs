//! The library side of the backend adapters: what each backend is asked, and
//! how each answer, or the lack of one, maps to a result or a `BackendError`.
use crate::errors::BackendError;
use crate::models::{
    CaseContext, GeneratedOpinion, LabelProbability, OpinionResponse, OutcomePrediction,
    PredictionRequest, PredictionResponse, PROBABILITY_SCALE, PROBABILITY_TOLERANCE,
};
use crate::text::same_text;
use std::collections::HashMap;
use vstd::prelude::*;

verus! {

/// How one bounded-time backend call ended on the wire.
#[derive(Debug, Clone)]
pub enum Transport {
    /// The backend answered with an HTTP status and a body.
    Answered { status: u16, body: Vec<u8> },
    /// The per-call timeout ran out.
    TimedOut,
    /// The backend could not be reached.
    Unreachable,
}

/// The error of a call that ended this way, if any.
pub open spec fn transport_error(t: Transport) -> Option<BackendError> {
    match t {
        Transport::Answered { status, .. } => if 200 <= status < 300 {
            None
        } else if 500 <= status {
            Some(BackendError::Unavailable)
        } else {
            Some(BackendError::Rejected { status })
        },
        Transport::TimedOut => Some(BackendError::Timeout),
        Transport::Unreachable => Some(BackendError::Unavailable),
    }
}

/// Maps how a call ended to the body of a successful answer or to its error:
/// 2xx is success, 5xx and unreachability are transient, a timeout is a
/// timeout, any other status is a rejection.
pub fn settle(t: Transport) -> (r: Result<Vec<u8>, BackendError>)
    ensures
        transport_error(t) matches Some(e) ==> r == Err::<Vec<u8>, BackendError>(e),
        transport_error(t) is None ==> (t matches Transport::Answered { body, .. } && r == Ok::<
            Vec<u8>,
            BackendError,
        >(body)),
{
    match t {
        Transport::Answered { status, body } => {
            if 200 <= status && status < 300 {
                Ok(body)
            } else if 500 <= status {
                Err(BackendError::Unavailable)
            } else {
                Err(BackendError::Rejected { status })
            }
        },
        Transport::TimedOut => Err(BackendError::Timeout),
        Transport::Unreachable => Err(BackendError::Unavailable),
    }
}

/// The string held by member `key` of the JSON object that `doc` encodes,
/// as serde_json reads it; none where `doc` is no JSON document, is not an
/// object, lacks the member, or the member is not a string.
pub uninterp spec fn json_text_member(doc: Seq<u8>, key: Seq<char>) -> Option<Seq<char>>;

/// Relies on serde_json::from_slice to parse `doc` into a serde_json::Value,
/// and on Value::get and Value::as_str to read one string member of it.
#[verifier::external_body]
fn read_text_member(doc: &[u8], key: &str) -> (r: Option<String>)
    ensures
        r matches Some(s) ==> json_text_member(doc@, key@) == Some(s@),
        r is None ==> json_text_member(doc@, key@) is None,
{
    let v: serde_json::Value = serde_json::from_slice(doc).ok()?;
    v.get(key).and_then(serde_json::Value::as_str).map(|s| s.to_string())
}

/// Text extracted from an uploaded document. It may be empty.
#[derive(Debug, Clone)]
pub struct ExtractedText {
    pub text: String,
}

/// The member that holds the extracted text in an OCR answer.
pub open spec fn full_text_key() -> Seq<char> {
    "full_text"@
}

/// Turns the `full_text` member read from an OCR answer into extracted text:
/// an answer without it breaks the backend's contract.
pub fn text_from_member(member: Option<String>) -> (r: Result<ExtractedText, BackendError>)
    ensures
        member matches Some(s) ==> (r matches Ok(t) && t.text == s),
        member is None ==> r == Err::<ExtractedText, BackendError>(BackendError::Malformed),
{
    match member {
        Some(text) => Ok(ExtractedText { text }),
        None => Err(BackendError::Malformed),
    }
}

/// Maps how an OCR call ended to extracted text or to its error. No text is
/// ever made up: a failed call is an error.
pub fn text_from_ocr_answer(t: Transport) -> (r: Result<ExtractedText, BackendError>)
    ensures
        transport_error(t) matches Some(e) ==> r == Err::<ExtractedText, BackendError>(e),
        transport_error(t) is None ==> (t matches Transport::Answered { body, .. } && (match json_text_member(body@, full_text_key()) {
            Some(s) => r matches Ok(x) && x.text@ == s,
            None => r == Err::<ExtractedText, BackendError>(BackendError::Malformed),
        })),
{
    proof {
        reveal_strlit("full_text");
    }
    match settle(t) {
        Ok(body) => text_from_member(read_text_member(body.as_slice(), "full_text")),
        Err(e) => Err(e),
    }
}

/// The prediction request for a brief: its text stands for both the facts
/// and the issue.
pub fn prediction_request_for(text: &ExtractedText) -> (r: PredictionRequest)
    ensures
        r.facts@ == text.text@,
        r.issue@ == text.text@,
{
    PredictionRequest { facts: text.text.clone(), issue: text.text.clone() }
}

/// The case context drafted from a brief: its text stands for the facts and
/// the issue; parties and courts are not known from it.
pub fn case_context_for(text: &ExtractedText) -> (r: CaseContext)
    ensures
        r.facts@ == text.text@,
        r.issue@ == text.text@,
        r.case_number@.len() == 0,
        r.petitioner@.len() == 0,
        r.respondent@.len() == 0,
        r.lower_court@.len() == 0,
        r.procedural_history is None,
{
    CaseContext {
        case_number: String::new(),
        petitioner: String::new(),
        respondent: String::new(),
        lower_court: String::new(),
        facts: text.text.clone(),
        issue: text.text.clone(),
        procedural_history: None,
    }
}

/// Sum of the probabilities, in billionths.
pub open spec fn probability_total(ps: Seq<LabelProbability>) -> int
    decreases ps.len(),
{
    if ps.len() == 0 {
        0
    } else {
        probability_total(ps.drop_last()) + ps.last().probability
    }
}

/// The probabilities sum to 1 within the tolerance.
pub open spec fn probabilities_balanced(ps: Seq<LabelProbability>) -> bool {
    PROBABILITY_SCALE - PROBABILITY_TOLERANCE <= probability_total(ps) <= PROBABILITY_SCALE
        + PROBABILITY_TOLERANCE
}

/// No label occurs twice: the probabilities form a mapping from labels.
pub open spec fn labels_distinct(ps: Seq<LabelProbability>) -> bool {
    forall|i: int, j: int|
        0 <= i < j < ps.len() ==> #[trigger] ps[i].label@ != #[trigger] ps[j].label@
}

/// A well-formed outcome distribution: distinct labels whose probabilities
/// sum to 1 within the tolerance.
pub open spec fn distribution_ok(ps: Seq<LabelProbability>) -> bool {
    labels_distinct(ps) && probabilities_balanced(ps)
}

proof fn lemma_total_prefix_bounded(ps: Seq<LabelProbability>, i: int)
    requires
        0 <= i <= ps.len(),
    ensures
        probability_total(ps.take(i)) <= probability_total(ps),
    decreases ps.len(),
{
    if i < ps.len() {
        lemma_total_prefix_bounded(ps.drop_last(), i);
        assert(ps.drop_last().take(i) =~= ps.take(i));
    } else {
        assert(ps.take(i) =~= ps);
    }
}

/// Whether the probabilities sum to 1 within the tolerance.
pub fn check_probabilities(ps: &Vec<LabelProbability>) -> (r: bool)
    ensures
        r == probabilities_balanced(ps@),
{
    let limit: u64 = PROBABILITY_SCALE + PROBABILITY_TOLERANCE;
    let mut total: u64 = 0;
    let mut i: usize = 0;
    assert(ps@.take(0) =~= Seq::<LabelProbability>::empty());
    while i < ps.len()
        invariant
            i <= ps@.len(),
            total == probability_total(ps@.take(i as int)),
            total <= limit,
            limit == PROBABILITY_SCALE + PROBABILITY_TOLERANCE,
        decreases ps@.len() - i,
    {
        let p = ps[i].probability;
        assert(ps@.take(i + 1).drop_last() =~= ps@.take(i as int));
        if p > limit - total {
            proof {
                lemma_total_prefix_bounded(ps@, i + 1);
            }
            return false;
        }
        total = total + p;
        i = i + 1;
    }
    assert(ps@.take(i as int) =~= ps@);
    total >= PROBABILITY_SCALE - PROBABILITY_TOLERANCE
}

/// Whether no label occurs twice.
pub fn check_labels_distinct(ps: &Vec<LabelProbability>) -> (r: bool)
    ensures
        r == labels_distinct(ps@),
{
    let mut i: usize = 0;
    while i < ps.len()
        invariant
            i <= ps@.len(),
            forall|a: int, b: int|
                0 <= a < b < ps@.len() && a < i ==> #[trigger] ps@[a].label@
                    != #[trigger] ps@[b].label@,
        decreases ps@.len() - i,
    {
        let mut j: usize = i + 1;
        while j < ps.len()
            invariant
                i < ps@.len(),
                i + 1 <= j <= ps@.len(),
                forall|a: int, b: int|
                    0 <= a < b < ps@.len() && a < i ==> #[trigger] ps@[a].label@
                        != #[trigger] ps@[b].label@,
                forall|b: int| i < b < j ==> ps@[i as int].label@ != #[trigger] ps@[b].label@,
            decreases ps@.len() - j,
        {
            if same_text(ps[i].label.as_str(), ps[j].label.as_str()) {
                assert(ps@[i as int].label@ == ps@[j as int].label@);
                return false;
            }
            j = j + 1;
        }
        i = i + 1;
    }
    true
}

/// Whether the probabilities form a well-formed outcome distribution.
pub fn check_distribution(ps: &Vec<LabelProbability>) -> (r: bool)
    ensures
        r == distribution_ok(ps@),
{
    check_labels_distinct(ps) && check_probabilities(ps)
}

/// The names of the supporting precedents, in order.
pub fn supporting_case_names(cases: &Vec<crate::models::SupportingCase>) -> (r: Vec<String>)
    ensures
        r@.len() == cases@.len(),
        forall|i: int| 0 <= i < r@.len() ==> r@[i] == #[trigger] cases@[i].case_name,
{
    let mut names: Vec<String> = Vec::new();
    let mut i: usize = 0;
    while i < cases.len()
        invariant
            i <= cases@.len(),
            names@.len() == i,
            forall|j: int| 0 <= j < i ==> names@[j] == #[trigger] cases@[j].case_name,
        decreases cases@.len() - i,
    {
        names.push(cases[i].case_name.clone());
        i = i + 1;
    }
    names
}

/// Accepts a prediction answer whose labels differ and whose probabilities
/// sum to 1 within the tolerance; any other breaks the backend's contract.
pub fn accept_prediction(resp: PredictionResponse) -> (r: Result<OutcomePrediction, BackendError>)
    ensures
        distribution_ok(resp.probabilities@) ==> (r matches Ok(p) && p.outcome
            == resp.predicted_outcome && p.probabilities == resp.probabilities && p.confidence
            == resp.confidence && p.explanation == resp.explanation && p.supporting_cases@.len()
            == resp.supporting_cases@.len() && (forall|i: int|
            0 <= i < p.supporting_cases@.len() ==> p.supporting_cases@[i]
                == #[trigger] resp.supporting_cases@[i].case_name)),
        !distribution_ok(resp.probabilities@) ==> r == Err::<
            OutcomePrediction,
            BackendError,
        >(BackendError::Malformed),
{
    if !check_distribution(&resp.probabilities) {
        return Err(BackendError::Malformed);
    }
    let supporting_cases = supporting_case_names(&resp.supporting_cases);
    Ok(
        OutcomePrediction {
            outcome: resp.predicted_outcome,
            probabilities: resp.probabilities,
            confidence: resp.confidence,
            supporting_cases,
            explanation: resp.explanation,
        },
    )
}

/// The disclaimer that every opinion carries verbatim.
pub open spec fn disclaimer() -> Seq<char> {
    "This opinion was generated automatically for research purposes and is not legal advice."@
}

/// The disclaimer that every opinion carries verbatim.
pub fn disclaimer_text() -> (r: String)
    ensures
        r@ == disclaimer(),
{
    String::from_str(
        "This opinion was generated automatically for research purposes and is not legal advice.",
    )
}

/// Takes the opinion of an answer, with the disclaimer set verbatim.
pub fn accept_opinion(resp: OpinionResponse) -> (r: GeneratedOpinion)
    ensures
        r.full_text == resp.opinion.full_text,
        r.sections == resp.opinion.sections,
        r.cited_precedents == resp.opinion.cited_precedents,
        r.generation_metadata == resp.opinion.generation_metadata,
        r.disclaimer@ == disclaimer(),
{
    let mut opinion = resp.opinion;
    opinion.disclaimer = disclaimer_text();
    opinion
}

/// The text of the stand-in opinion when synthesis failed.
pub open spec fn placeholder_opinion_text() -> Seq<char> {
    "Opinion synthesis is unavailable for this brief."@
}

/// The stand-in opinion when synthesis failed: no text is made up, and the
/// disclaimer is kept.
pub fn placeholder_opinion() -> (r: GeneratedOpinion)
    ensures
        r.full_text@ == placeholder_opinion_text(),
        r.sections@ == Map::<String, String>::empty(),
        r.cited_precedents@.len() == 0,
        r.generation_metadata@ == Map::<String, serde_json::Value>::empty(),
        r.disclaimer@ == disclaimer(),
{
    GeneratedOpinion {
        full_text: String::from_str("Opinion synthesis is unavailable for this brief."),
        sections: HashMap::new(),
        cited_precedents: Vec::new(),
        generation_metadata: HashMap::new(),
        disclaimer: disclaimer_text(),
    }
}

} // verus!
