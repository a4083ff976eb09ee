use legal_brief_pipeline::adapters::{
    accept_opinion, accept_prediction, check_distribution, check_labels_distinct, check_probabilities, settle, text_from_member,
    text_from_ocr_answer, Transport, disclaimer_text, placeholder_opinion,
};
use legal_brief_pipeline::assembler::{precedes, rank_cases, CaseResult, PREVIEW_CHARS};
use legal_brief_pipeline::errors::BackendError;
use legal_brief_pipeline::intake::validate_upload;
use legal_brief_pipeline::models::{
    default_max_precedents, default_min_similarity, default_opinion_type, default_top_k,
    search_request_for, GeneratedOpinion, LabelProbability, OpinionResponse, PredictionResponse,
    SearchResult, SupportingCase, ValidationStatus,
};
use legal_brief_pipeline::text::{compare_text, preview_text, same_text, TextOrder};
use std::collections::HashMap;

fn result(name: &str, score: u32) -> SearchResult {
    SearchResult {
        case_name: name.to_string(),
        year: 1970,
        court: "D.C. Cir.".to_string(),
        section_type: "facts".to_string(),
        similarity_score: score,
        snippet: String::new(),
        full_document: None,
        metadata: HashMap::new(),
    }
}

fn probs(ps: &[u64]) -> Vec<LabelProbability> {
    ps.iter().enumerate().map(|(i, p)| LabelProbability { label: format!("L{}", i), probability: *p }).collect()
}

#[test]
fn defaults_are_fixed() {
    assert_eq!(default_top_k(), 10);
    assert_eq!(default_min_similarity(), 600_000);
    assert_eq!(default_opinion_type(), "per_curiam");
    assert_eq!(default_max_precedents(), 5);
    let s = search_request_for("q".to_string());
    assert_eq!(s.top_k, 10);
    assert!(s.section_filter.is_none() && s.year_range.is_none());
}

#[test]
fn preview_never_exceeds_budget_plus_marker() {
    for n in [0usize, 1, 499, 500, 501, 600, 10_000] {
        let t = "é".repeat(n);
        let p = preview_text(&t, PREVIEW_CHARS);
        assert!(p.chars().count() <= PREVIEW_CHARS + 3);
        assert_eq!(p.chars().count(), n.min(PREVIEW_CHARS) + 3);
        assert!(p.ends_with("..."));
    }
    assert_eq!(preview_text("abcdef", 3), "abc...");
    assert_eq!(preview_text("", 3), "...");
}

#[test]
fn text_comparison_is_lexicographic() {
    assert_eq!(compare_text("abc", "abd"), TextOrder::Less);
    assert_eq!(compare_text("abd", "abc"), TextOrder::Greater);
    assert_eq!(compare_text("ab", "abc"), TextOrder::Less);
    assert_eq!(compare_text("", ""), TextOrder::Equal);
    assert_eq!(compare_text("Z", "a"), TextOrder::Less);
    assert!(same_text("x y", "x y"));
    assert!(!same_text("x", "y"));
}

#[test]
fn cases_rank_by_score_then_name() {
    let ranked = rank_cases(vec![
        result("Beta", 500_000),
        result("Alpha", 900_000),
        result("Delta", 500_000),
        result("Alpha", 500_000),
        result("Gamma", 700_000),
    ]);
    let got: Vec<(String, u32)> = ranked.iter().map(|c| (c.case_name.clone(), c.relevance_score)).collect();
    let want = vec![
        ("Alpha".to_string(), 900_000),
        ("Gamma".to_string(), 700_000),
        ("Alpha".to_string(), 500_000),
        ("Beta".to_string(), 500_000),
        ("Delta".to_string(), 500_000),
    ];
    assert_eq!(got, want);
    assert!(rank_cases(vec![]).is_empty());
    let a = CaseResult { case_name: "A".into(), citation: String::new(), relevance_score: 1, snippet: String::new() };
    let b = CaseResult { case_name: "B".into(), citation: String::new(), relevance_score: 1, snippet: String::new() };
    assert!(precedes(&a, &b) && !precedes(&b, &a) && precedes(&a, &a));
}

#[test]
fn transport_outcomes_map_to_errors() {
    assert_eq!(settle(Transport::Answered { status: 200, body: vec![1] }), Ok(vec![1]));
    assert_eq!(settle(Transport::Answered { status: 503, body: vec![] }), Err(BackendError::Unavailable));
    assert_eq!(settle(Transport::Answered { status: 404, body: vec![] }), Err(BackendError::Rejected { status: 404 }));
    assert_eq!(settle(Transport::TimedOut), Err(BackendError::Timeout));
    assert_eq!(settle(Transport::Unreachable), Err(BackendError::Unavailable));
    assert!(BackendError::Timeout.is_transient());
    assert!(!BackendError::Malformed.is_transient());
    assert!(!BackendError::Rejected { status: 400 }.is_transient());
}

#[test]
fn ocr_answer_reads_full_text() {
    let body = br#"{"full_text": "The tenant alleges", "pages": 3}"#.to_vec();
    let t = text_from_ocr_answer(Transport::Answered { status: 200, body }).unwrap();
    assert_eq!(t.text, "The tenant alleges");
    let missing = br#"{"text": "x"}"#.to_vec();
    assert_eq!(text_from_ocr_answer(Transport::Answered { status: 200, body: missing }).unwrap_err(), BackendError::Malformed);
    let broken = b"not json".to_vec();
    assert_eq!(text_from_ocr_answer(Transport::Answered { status: 201, body: broken }).unwrap_err(), BackendError::Malformed);
    let wrong_type = br#"{"full_text": 5}"#.to_vec();
    assert_eq!(text_from_ocr_answer(Transport::Answered { status: 200, body: wrong_type }).unwrap_err(), BackendError::Malformed);
    assert_eq!(text_from_ocr_answer(Transport::Unreachable).unwrap_err(), BackendError::Unavailable);
    assert_eq!(text_from_member(Some("a".into())).unwrap().text, "a");
    assert_eq!(text_from_member(None).unwrap_err(), BackendError::Malformed);
}

#[test]
fn probabilities_must_sum_to_one() {
    assert!(check_probabilities(&probs(&[850_000_000, 100_000_000, 50_000_000])));
    assert!(check_probabilities(&probs(&[999_999_000])));
    assert!(check_probabilities(&probs(&[1_000_001_000])));
    assert!(!check_probabilities(&probs(&[999_998_999])));
    assert!(!check_probabilities(&probs(&[1_000_001_001])));
    assert!(!check_probabilities(&probs(&[])));
    assert!(!check_probabilities(&probs(&[u64::MAX, u64::MAX])));
    assert!(check_distribution(&probs(&[400_000_000, 600_000_000])));
    let mut same = probs(&[400_000_000, 600_000_000]);
    same[1].label = "L0".to_string();
    assert!(check_probabilities(&same));
    assert!(!check_labels_distinct(&same));
    assert!(!check_distribution(&same));
}

#[test]
fn prediction_answers_are_checked() {
    let resp = |ps: &[u64]| PredictionResponse {
        status: "ok".into(),
        predicted_outcome: "MIXED".into(),
        probabilities: probs(ps),
        confidence: 1,
        supporting_cases: vec![SupportingCase { case_name: "Hilder".into(), year: 1984, similarity_score: 9, outcome: "W".into() }],
        explanation: "e".into(),
    };
    let p = accept_prediction(resp(&[500_000_000, 500_000_000])).unwrap();
    assert_eq!(p.outcome, "MIXED");
    assert_eq!(p.supporting_cases, vec!["Hilder".to_string()]);
    assert_eq!(accept_prediction(resp(&[1])).unwrap_err(), BackendError::Malformed);
    let mut repeated = resp(&[500_000_000, 500_000_000]);
    repeated.probabilities[1].label = repeated.probabilities[0].label.clone();
    assert_eq!(accept_prediction(repeated).unwrap_err(), BackendError::Malformed);
}

#[test]
fn opinions_keep_the_disclaimer() {
    let o = accept_opinion(OpinionResponse {
        status: "ok".into(),
        opinion: GeneratedOpinion {
            full_text: "Affirmed.".into(),
            sections: HashMap::new(),
            cited_precedents: vec![],
            generation_metadata: HashMap::new(),
            disclaimer: String::new(),
        },
    });
    assert_eq!(o.full_text, "Affirmed.");
    assert_eq!(o.disclaimer, disclaimer_text());
    assert!(!disclaimer_text().is_empty());
    let p = placeholder_opinion();
    assert_eq!(p.disclaimer, disclaimer_text());
    assert!(p.sections.is_empty() && p.generation_metadata.is_empty() && p.cited_precedents.is_empty());
}

#[test]
fn intake_checks_in_order() {
    let r = validate_upload(vec![], "text/plain".into(), "a".into(), 0);
    assert_eq!(r.unwrap_err().message(), "No file uploaded");
    let ok = validate_upload(vec![1], "application/pdf".into(), "b.pdf".into(), 1).unwrap();
    assert_eq!(ok.file_name, "b.pdf");
}

#[test]
fn validation_status_labels_round_trip() {
    for s in [ValidationStatus::Valid, ValidationStatus::Invalid, ValidationStatus::Pending] {
        assert_eq!(ValidationStatus::from_label(&s.label()), Some(s));
    }
    assert_eq!(ValidationStatus::Pending.label(), "pending");
    assert_eq!(ValidationStatus::from_label("VALID"), None);
    assert_eq!(ValidationStatus::from_label(""), None);
}
