//! Shared request, response and value types exchanged with the caller and with
//! every backend. Scores and probabilities are fixed-point integers: a
//! similarity score is in millionths, a probability in billionths.
use crate::text::same_text;
use std::collections::HashMap;
use vstd::prelude::*;

verus! {

/// A JSON value of serde_json, carried through as an opaque annotation.
#[verifier::external_type_specification]
#[verifier::external_body]
pub struct ExJsonValue(serde_json::Value);

/// Scale of a similarity or confidence score: `SCORE_SCALE` stands for 1.0.
pub const SCORE_SCALE: u32 = 1_000_000;

/// Scale of a probability: `PROBABILITY_SCALE` stands for 1.0.
pub const PROBABILITY_SCALE: u64 = 1_000_000_000;

/// How far the probabilities of a prediction may sum away from 1.0 (1e-6).
pub const PROBABILITY_TOLERANCE: u64 = 1_000;

/// Validation state of an ingested case-law document.
#[derive(Debug, Clone, Copy, PartialEq, Eq, Structural)]
pub enum ValidationStatus {
    Valid,
    Invalid,
    Pending,
}

/// The wire label of each validation status.
pub open spec fn status_label(s: ValidationStatus) -> Seq<char> {
    match s {
        ValidationStatus::Valid => "valid"@,
        ValidationStatus::Invalid => "invalid"@,
        ValidationStatus::Pending => "pending"@,
    }
}

impl ValidationStatus {
    /// The wire label of this status.
    pub fn label(&self) -> (r: String)
        ensures
            r@ == status_label(*self),
    {
        match self {
            ValidationStatus::Valid => String::from_str("valid"),
            ValidationStatus::Invalid => String::from_str("invalid"),
            ValidationStatus::Pending => String::from_str("pending"),
        }
    }

    /// The status whose wire label is `s`; none for any other text.
    pub fn from_label(s: &str) -> (r: Option<ValidationStatus>)
        ensures
            r matches Some(v) ==> status_label(v) == s@,
            r is None ==> forall|v: ValidationStatus| status_label(v) != s@,
    {
        proof {
            reveal_strlit("valid");
            reveal_strlit("invalid");
            reveal_strlit("pending");
        }
        if same_text(s, "valid") {
            Some(ValidationStatus::Valid)
        } else if same_text(s, "invalid") {
            Some(ValidationStatus::Invalid)
        } else if same_text(s, "pending") {
            Some(ValidationStatus::Pending)
        } else {
            None
        }
    }
}

/// A normalized case-law record.
#[derive(Debug, Clone)]
pub struct CaseLawDocument {
    pub case_name: String,
    pub year: i32,
    pub court: String,
    pub opinion_type: String,
    pub facts: String,
    pub issue: String,
    pub reasoning: String,
    pub holding: String,
    pub final_judgment: String,
    pub case_number: Option<String>,
    pub petitioner: Option<String>,
    pub respondent: Option<String>,
    pub lower_court: Option<String>,
    pub procedural_history: Option<String>,
    pub document_id: String,
    pub ingestion_timestamp: String,
    pub validation_status: ValidationStatus,
}

/// A semantic case-law search.
#[derive(Debug, Clone)]
pub struct SearchRequest {
    pub query: String,
    pub top_k: i32,
    pub section_filter: Option<String>,
    /// Inclusive `(low, high)` range of years.
    pub year_range: Option<(i32, i32)>,
    /// Minimum similarity, in millionths.
    pub min_similarity: u32,
}

impl SearchRequest {
    /// At least one result is asked for, the threshold lies in [0, 1] and a
    /// year range is ordered.
    pub open spec fn wf(&self) -> bool {
        &&& self.top_k >= 1
        &&& self.min_similarity <= SCORE_SCALE
        &&& (self.year_range matches Some(r) ==> r.0 <= r.1)
    }
}

/// One scored match of a search.
#[derive(Debug, Clone)]
pub struct SearchResult {
    pub case_name: String,
    pub year: i32,
    pub court: String,
    pub section_type: String,
    /// Similarity, in millionths.
    pub similarity_score: u32,
    pub snippet: String,
    pub full_document: Option<CaseLawDocument>,
    pub metadata: HashMap<String, serde_json::Value>,
}

/// What the retrieval backend answers.
#[derive(Debug, Clone)]
pub struct SearchResponse {
    pub status: String,
    pub query: String,
    pub results: Vec<SearchResult>,
    pub total_results: usize,
    pub search_time_ms: u64,
}

/// Input of the prediction backend.
#[derive(Debug, Clone)]
pub struct PredictionRequest {
    pub facts: String,
    pub issue: String,
}

/// The probability of one outcome label, in billionths.
#[derive(Debug, Clone)]
pub struct LabelProbability {
    pub label: String,
    pub probability: u64,
}

/// A predicted outcome with its distribution over the outcome labels.
#[derive(Debug, Clone)]
pub struct OutcomePrediction {
    pub outcome: String,
    pub probabilities: Vec<LabelProbability>,
    /// Confidence, in millionths.
    pub confidence: u32,
    pub supporting_cases: Vec<String>,
    pub explanation: String,
}

/// What the prediction backend answers.
#[derive(Debug, Clone)]
pub struct PredictionResponse {
    pub status: String,
    pub predicted_outcome: String,
    pub probabilities: Vec<LabelProbability>,
    /// Confidence, in millionths.
    pub confidence: u32,
    pub supporting_cases: Vec<SupportingCase>,
    pub explanation: String,
}

/// A precedent that the prediction backend leaned on.
#[derive(Debug, Clone)]
pub struct SupportingCase {
    pub case_name: String,
    pub year: i32,
    /// Similarity, in millionths.
    pub similarity_score: u32,
    pub outcome: String,
}

/// Input of the opinion backend.
#[derive(Debug, Clone)]
pub struct OpinionRequest {
    pub case_context: CaseContext,
    pub opinion_type: String,
    pub max_precedents: i32,
}

/// The structured facts of a case handed to opinion synthesis.
#[derive(Debug, Clone)]
pub struct CaseContext {
    pub case_number: String,
    pub petitioner: String,
    pub respondent: String,
    pub lower_court: String,
    pub facts: String,
    pub issue: String,
    pub procedural_history: Option<String>,
}

/// A drafted opinion.
#[derive(Debug, Clone)]
pub struct GeneratedOpinion {
    pub full_text: String,
    pub sections: HashMap<String, String>,
    pub cited_precedents: Vec<String>,
    pub generation_metadata: HashMap<String, serde_json::Value>,
    pub disclaimer: String,
}

/// What the opinion backend answers.
#[derive(Debug, Clone)]
pub struct OpinionResponse {
    pub status: String,
    pub opinion: GeneratedOpinion,
}

/// Outcome of ingesting one case-law document.
#[derive(Debug, Clone)]
pub struct IngestionResult {
    pub document_id: String,
    pub case_name: String,
    pub status: String,
    pub sections_extracted: Vec<String>,
    pub validation_errors: Vec<String>,
    pub processing_time_ms: u64,
    pub vector_ids: Vec<String>,
}

/// Liveness answer.
#[derive(Debug, Clone)]
pub struct HealthResponse {
    pub status: String,
    pub service: String,
    pub version: String,
    pub components: HashMap<String, String>,
}

/// Corpus and usage statistics.
#[derive(Debug, Clone)]
pub struct StatsResponse {
    pub total_cases_indexed: i64,
    pub vector_index_size_mb: i64,
    pub total_searches_performed: i64,
    pub total_opinions_generated: i64,
    pub average_search_time_us: u64,
    pub average_opinion_generation_time_us: u64,
}

/// A structured error object.
#[derive(Debug, Clone)]
pub struct ErrorResponse {
    pub status: String,
    pub error: String,
    pub details: Option<String>,
}

/// Number of matches a search asks for when the caller gives none.
pub fn default_top_k() -> (r: i32)
    ensures
        r == 10,
{
    10
}

/// Minimum similarity (in millionths) when the caller gives none: 0.6.
pub fn default_min_similarity() -> (r: u32)
    ensures
        r == 600_000,
{
    600_000
}

/// The opinion type to draft when the caller gives none.
pub open spec fn default_opinion_type_spec() -> Seq<char> {
    "per_curiam"@
}

/// Opinion type to draft when the caller gives none.
pub fn default_opinion_type() -> (r: String)
    ensures
        r@ == default_opinion_type_spec(),
{
    String::from_str("per_curiam")
}

/// Number of precedents an opinion cites at most when the caller gives none.
pub fn default_max_precedents() -> (r: i32)
    ensures
        r == 5,
{
    5
}

/// A search for `query` with every other parameter at its default.
pub fn search_request_for(query: String) -> (r: SearchRequest)
    ensures
        r.query == query,
        r.top_k == 10,
        r.section_filter is None,
        r.year_range is None,
        r.min_similarity == 600_000,
        r.wf(),
{
    SearchRequest {
        query,
        top_k: default_top_k(),
        section_filter: None,
        year_range: None,
        min_similarity: default_min_similarity(),
    }
}

/// An opinion request for `case_context` with the default type and bound.
pub fn opinion_request_for(case_context: CaseContext) -> (r: OpinionRequest)
    ensures
        r.case_context == case_context,
        r.opinion_type@ == default_opinion_type_spec(),
        r.max_precedents == 5,
{
    OpinionRequest {
        case_context,
        opinion_type: default_opinion_type(),
        max_precedents: default_max_precedents(),
    }
}

} // verus!
