use legal_brief_pipeline::adapters::{disclaimer_text, ExtractedText};
use legal_brief_pipeline::errors::{BackendError, PipelineError};
use legal_brief_pipeline::intake::DEFAULT_MAX_UPLOAD_BYTES;
use legal_brief_pipeline::models::{
    GeneratedOpinion, LabelProbability, OutcomePrediction, SearchResult,
};
use legal_brief_pipeline::orchestrator::{Action, Event, Pipeline, Stage};
use std::collections::HashMap;

fn upload(n: usize) -> Event {
    Event::Upload {
        bytes: vec![7u8; n],
        media_type: "application/pdf".to_string(),
        file_name: "brief.pdf".to_string(),
    }
}

fn search_result(name: &str, score: u32) -> SearchResult {
    SearchResult {
        case_name: name.to_string(),
        year: 1984,
        court: "Vt.".to_string(),
        section_type: "holding".to_string(),
        similarity_score: score,
        snippet: format!("snippet of {}", name),
        full_document: None,
        metadata: HashMap::new(),
    }
}

fn prediction(ps: &[(&str, u64)]) -> OutcomePrediction {
    OutcomePrediction {
        outcome: "PLAINTIFF_WINS".to_string(),
        probabilities: ps
            .iter()
            .map(|(l, p)| LabelProbability { label: l.to_string(), probability: *p })
            .collect(),
        confidence: 850_000,
        supporting_cases: vec![],
        explanation: "warranty of habitability".to_string(),
    }
}

fn opinion(text: &str) -> GeneratedOpinion {
    GeneratedOpinion {
        full_text: text.to_string(),
        sections: HashMap::new(),
        cited_precedents: vec!["Hilder v. St. Peter".to_string()],
        generation_metadata: HashMap::new(),
        disclaimer: String::new(),
    }
}

#[test]
fn full_scenario_with_two_matches() {
    let mut p = Pipeline::new(DEFAULT_MAX_UPLOAD_BYTES, 500);
    assert!(matches!(p.step(upload(1200)), Action::CallOcr(a) if a.bytes.len() == 1200));
    let text = format!("The tenant alleges{}", "x".repeat(582));
    assert_eq!(text.chars().count(), 600);
    match p.step(Event::OcrSettled(Ok(ExtractedText { text: text.clone() }))) {
        Action::CallRetrievalAndPrediction(s, q) => {
            assert_eq!(s.query, text);
            assert_eq!(s.top_k, 10);
            assert_eq!(s.min_similarity, 600_000);
            assert_eq!(q.facts, text);
        }
        _ => panic!("both concurrent calls expected"),
    }
    let found = vec![search_result("Javins v. First National Realty", 880_000), search_result("Hilder v. St. Peter", 920_000)];
    assert!(matches!(p.step(Event::RetrievalSettled(Ok(found))), Action::Wait));
    let probs = [("PLAINTIFF_WINS", 850_000_000), ("DEFENDANT_WINS", 100_000_000), ("MIXED", 50_000_000)];
    match p.step(Event::PredictionSettled(Ok(prediction(&probs)))) {
        Action::CallOpinion(req) => {
            assert_eq!(req.case_context.facts, text);
            assert_eq!(req.opinion_type, "per_curiam");
            assert_eq!(req.max_precedents, 5);
        }
        _ => panic!("opinion call expected"),
    }
    match p.step(Event::OpinionSettled(Ok(opinion("The court finds for the tenant.")))) {
        Action::Respond(r) => {
            assert_eq!(r.status, "ok");
            let expected: String = text.chars().take(500).collect::<String>() + "...";
            assert_eq!(r.ocr_text, expected);
            assert_eq!(r.ocr_text.chars().count(), 503);
            let scores: Vec<u32> = r.top_cases.iter().map(|c| c.relevance_score).collect();
            assert_eq!(scores, vec![920_000, 880_000]);
            assert_eq!(r.top_cases[0].case_name, "Hilder v. St. Peter");
            assert_eq!(r.top_cases[0].citation, "Vt.");
            let o = r.predicted_outcome.expect("prediction kept");
            assert_eq!(o.label, "PLAINTIFF_WINS");
            let got: Vec<u64> = o.probabilities.iter().map(|x| x.probability).collect();
            assert_eq!(got, vec![850_000_000, 100_000_000, 50_000_000]);
            assert_eq!(got.iter().sum::<u64>(), 1_000_000_000);
            assert!(r.prediction_note.is_none());
            assert_eq!(r.judge_opinion, "The court finds for the tenant.");
            assert_eq!(r.disclaimer, disclaimer_text());
        }
        _ => panic!("answer expected"),
    }
    assert_eq!(p.phase.stage, Stage::Assembled);
}

#[test]
fn empty_upload_fails_without_backend_calls() {
    let mut p = Pipeline::new(DEFAULT_MAX_UPLOAD_BYTES, 500);
    match p.step(upload(0)) {
        Action::Fail(e) => {
            assert_eq!(e, PipelineError::EmptyPayload);
            assert_eq!(e.message(), "No file uploaded");
        }
        _ => panic!("failure expected"),
    }
    assert_eq!(p.phase.stage, Stage::Failed);
    let later = p.step(Event::OcrSettled(Ok(ExtractedText { text: "x".to_string() })));
    assert!(matches!(later, Action::Ignore));
    assert!(matches!(p.step(Event::OpinionSettled(Ok(opinion("x")))), Action::Ignore));
}

#[test]
fn oversized_and_wrongly_typed_uploads_are_refused() {
    let mut p = Pipeline::new(10, 500);
    assert!(matches!(
        p.step(upload(11)),
        Action::Fail(PipelineError::PayloadTooLarge { size: 11, limit: 10 })
    ));
    let mut q = Pipeline::new(10, 500);
    let e = Event::Upload { bytes: vec![1, 2], media_type: "text/plain".to_string(), file_name: "a.txt".to_string() };
    assert!(matches!(q.step(e), Action::Fail(PipelineError::UnsupportedMediaType)));
}

#[test]
fn ocr_unreachable_fails_request_once() {
    let mut p = Pipeline::new(DEFAULT_MAX_UPLOAD_BYTES, 500);
    assert!(matches!(p.step(upload(5)), Action::CallOcr(_)));
    match p.step(Event::OcrSettled(Err(BackendError::Unavailable))) {
        Action::Fail(e) => assert_eq!(e, PipelineError::Extraction(BackendError::Unavailable)),
        _ => panic!("failure expected"),
    }
    assert!(matches!(p.step(Event::PredictionSettled(Ok(prediction(&[("A", 1_000_000_000)])))), Action::Ignore));
    assert!(matches!(p.step(Event::RetrievalSettled(Ok(vec![]))), Action::Ignore));
}

#[test]
fn retrieval_failure_degrades_to_empty_cases() {
    let mut p = Pipeline::new(DEFAULT_MAX_UPLOAD_BYTES, 500);
    p.step(upload(5));
    p.step(Event::OcrSettled(Ok(ExtractedText { text: "short".to_string() })));
    assert!(matches!(p.step(Event::PredictionSettled(Err(BackendError::Timeout))), Action::Wait));
    assert!(matches!(p.step(Event::RetrievalSettled(Err(BackendError::Unavailable))), Action::CallOpinion(_)));
    match p.step(Event::OpinionSettled(Err(BackendError::Rejected { status: 422 }))) {
        Action::Respond(r) => {
            assert_eq!(r.status, "ok");
            assert!(r.top_cases.is_empty());
            assert!(r.predicted_outcome.is_none());
            assert_eq!(r.prediction_note.as_deref(), Some("Outcome prediction is unavailable for this brief."));
            assert_eq!(r.ocr_text, "short...");
            assert_eq!(r.judge_opinion, "Opinion synthesis is unavailable for this brief.");
            assert_eq!(r.disclaimer, disclaimer_text());
        }
        _ => panic!("answer expected"),
    }
}

#[test]
fn empty_extracted_text_still_proceeds() {
    let mut p = Pipeline::new(DEFAULT_MAX_UPLOAD_BYTES, 500);
    p.step(upload(5));
    let a = p.step(Event::OcrSettled(Ok(ExtractedText { text: String::new() })));
    assert!(matches!(a, Action::CallRetrievalAndPrediction(_, _)));
    assert_eq!(p.phase.stage, Stage::RetrievingAndPredicting);
}

#[test]
fn unbalanced_prediction_is_dropped_from_answer() {
    let mut p = Pipeline::new(DEFAULT_MAX_UPLOAD_BYTES, 500);
    p.step(upload(5));
    p.step(Event::OcrSettled(Ok(ExtractedText { text: "t".to_string() })));
    p.step(Event::RetrievalSettled(Ok(vec![])));
    p.step(Event::PredictionSettled(Ok(prediction(&[("A", 600_000_000), ("B", 300_000_000)]))));
    match p.step(Event::OpinionSettled(Ok(opinion("o")))) {
        Action::Respond(r) => {
            assert!(r.predicted_outcome.is_none());
            assert!(r.prediction_note.is_some());
        }
        _ => panic!("answer expected"),
    }
}

#[test]
fn events_out_of_order_are_ignored() {
    let mut p = Pipeline::new(DEFAULT_MAX_UPLOAD_BYTES, 500);
    assert!(matches!(p.step(Event::RetrievalSettled(Ok(vec![]))), Action::Ignore));
    assert_eq!(p.phase.stage, Stage::Idle);
    p.step(upload(5));
    assert!(matches!(p.step(upload(5)), Action::Ignore));
    p.step(Event::OcrSettled(Ok(ExtractedText { text: "t".to_string() })));
    assert!(matches!(p.step(Event::RetrievalSettled(Ok(vec![]))), Action::Wait));
    assert!(matches!(p.step(Event::RetrievalSettled(Ok(vec![]))), Action::Ignore));
}

#[test]
fn failed_prediction_keeps_text_and_matches() {
    let mut p = Pipeline::new(DEFAULT_MAX_UPLOAD_BYTES, 4);
    assert_eq!(p.text.text, "");
    p.step(upload(5));
    p.step(Event::OcrSettled(Ok(ExtractedText { text: "abcdefgh".to_string() })));
    p.step(Event::RetrievalSettled(Ok(vec![search_result("B", 100), search_result("A", 100)])));
    p.step(Event::PredictionSettled(Err(BackendError::Unavailable)));
    assert_eq!(p.text.text, "abcdefgh");
    assert_eq!(p.matches.len(), 2);
    match p.step(Event::OpinionSettled(Ok(opinion("o")))) {
        Action::Respond(r) => {
            assert_eq!(r.ocr_text, "abcd...");
            let names: Vec<&str> = r.top_cases.iter().map(|c| c.case_name.as_str()).collect();
            assert_eq!(names, vec!["A", "B"]);
            assert_eq!(r.prediction_note.as_deref(), Some("Outcome prediction is unavailable for this brief."));
        }
        _ => panic!("answer expected"),
    }
}
