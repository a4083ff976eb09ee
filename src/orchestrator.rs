//! The per-request pipeline: a state machine from stage and event to next
//! stage and action. The caller performs each action (a backend call, the
//! answer) and hands back the event that settles it.
use crate::adapters::{
    case_context_for, disclaimer, disclaimer_text, placeholder_opinion, placeholder_opinion_text,
    prediction_request_for, distribution_ok, ExtractedText,
};
use crate::assembler::{
    assemble, case_of, prediction_unavailable_note, response_well_formed, AnalyzeResponse,
};
use crate::text::preview_of;
use crate::errors::{error_message, BackendError, PipelineError};
use crate::intake::{intake_verdict, validate_upload, UploadedArtifact};
use crate::models::{
    default_opinion_type_spec, opinion_request_for, search_request_for, GeneratedOpinion,
    OpinionRequest, OutcomePrediction, PredictionRequest, SearchRequest, SearchResult,
};
use vstd::prelude::*;

verus! {

/// Where a request stands.
#[derive(Debug, Clone, Copy, PartialEq, Eq, Structural)]
pub enum Stage {
    Idle,
    Extracting,
    RetrievingAndPredicting,
    Synthesizing,
    Assembled,
    Failed,
}

/// The control state of a request: its stage, which of the two concurrent
/// calls have settled, and the upload ceiling.
#[derive(Debug, Clone, Copy, PartialEq, Eq, Structural)]
pub struct Phase {
    pub stage: Stage,
    pub retrieval_settled: bool,
    pub prediction_settled: bool,
    pub max_upload_bytes: usize,
}

/// Something that happened to a request.
#[derive(Debug)]
pub enum Event {
    /// The caller uploaded a file.
    Upload { bytes: Vec<u8>, media_type: String, file_name: String },
    /// The OCR call settled.
    OcrSettled(Result<ExtractedText, BackendError>),
    /// The retrieval call settled.
    RetrievalSettled(Result<Vec<SearchResult>, BackendError>),
    /// The prediction call settled.
    PredictionSettled(Result<OutcomePrediction, BackendError>),
    /// The opinion call settled.
    OpinionSettled(Result<GeneratedOpinion, BackendError>),
}

/// What the caller is to do next.
#[derive(Debug)]
pub enum Action {
    /// Send the artifact to the OCR backend.
    CallOcr(UploadedArtifact),
    /// Issue both calls concurrently.
    CallRetrievalAndPrediction(SearchRequest, PredictionRequest),
    /// Wait for the other outstanding call.
    Wait,
    /// Ask for an opinion.
    CallOpinion(OpinionRequest),
    /// Answer the caller; the request is done.
    Respond(AnalyzeResponse),
    /// Answer the caller with this single error; the request is done.
    Fail(PipelineError),
    /// The event does not belong to this stage; nothing changed.
    Ignore,
}

/// The shape of an action, without its data.
#[derive(Debug, Clone, Copy, PartialEq, Eq, Structural)]
pub enum ActionKind {
    CallOcr,
    CallRetrievalAndPrediction,
    Wait,
    CallOpinion,
    Respond,
    Fail,
    Ignore,
}

/// The shape of an action.
pub open spec fn kind_of(a: Action) -> ActionKind {
    match a {
        Action::CallOcr(_) => ActionKind::CallOcr,
        Action::CallRetrievalAndPrediction(_, _) => ActionKind::CallRetrievalAndPrediction,
        Action::Wait => ActionKind::Wait,
        Action::CallOpinion(_) => ActionKind::CallOpinion,
        Action::Respond(_) => ActionKind::Respond,
        Action::Fail(_) => ActionKind::Fail,
        Action::Ignore => ActionKind::Ignore,
    }
}

/// Whether an action calls a backend.
pub open spec fn calls_backend(a: ActionKind) -> bool {
    a is CallOcr || a is CallRetrievalAndPrediction || a is CallOpinion
}

/// The stage graph: the next control state and the shape of the action for
/// each event.
pub open spec fn next(p: Phase, e: Event) -> (Phase, ActionKind) {
    match e {
        Event::Upload { bytes, media_type, .. } => if p.stage is Idle {
            if intake_verdict(bytes@.len(), media_type@, p.max_upload_bytes as nat) is Some {
                (Phase { stage: Stage::Failed, ..p }, ActionKind::Fail)
            } else {
                (Phase { stage: Stage::Extracting, ..p }, ActionKind::CallOcr)
            }
        } else {
            (p, ActionKind::Ignore)
        },
        Event::OcrSettled(res) => if p.stage is Extracting {
            if res is Ok {
                (
                    Phase {
                        stage: Stage::RetrievingAndPredicting,
                        retrieval_settled: false,
                        prediction_settled: false,
                        ..p
                    },
                    ActionKind::CallRetrievalAndPrediction,
                )
            } else {
                (Phase { stage: Stage::Failed, ..p }, ActionKind::Fail)
            }
        } else {
            (p, ActionKind::Ignore)
        },
        Event::RetrievalSettled(_) => if p.stage is RetrievingAndPredicting
            && !p.retrieval_settled {
            if p.prediction_settled {
                (
                    Phase { stage: Stage::Synthesizing, retrieval_settled: true, ..p },
                    ActionKind::CallOpinion,
                )
            } else {
                (Phase { retrieval_settled: true, ..p }, ActionKind::Wait)
            }
        } else {
            (p, ActionKind::Ignore)
        },
        Event::PredictionSettled(_) => if p.stage is RetrievingAndPredicting
            && !p.prediction_settled {
            if p.retrieval_settled {
                (
                    Phase { stage: Stage::Synthesizing, prediction_settled: true, ..p },
                    ActionKind::CallOpinion,
                )
            } else {
                (Phase { prediction_settled: true, ..p }, ActionKind::Wait)
            }
        } else {
            (p, ActionKind::Ignore)
        },
        Event::OpinionSettled(_) => if p.stage is Synthesizing {
            (Phase { stage: Stage::Assembled, ..p }, ActionKind::Respond)
        } else {
            (p, ActionKind::Ignore)
        },
    }
}

/// The shapes of the actions taken for a sequence of events.
pub open spec fn run(p: Phase, events: Seq<Event>) -> Seq<ActionKind>
    decreases events.len(),
{
    if events.len() == 0 {
        Seq::empty()
    } else {
        seq![next(p, events[0]).1] + run(next(p, events[0]).0, events.drop_first())
    }
}

/// The state of one request.
pub struct Pipeline {
    pub phase: Phase,
    /// Characters of extracted text shown in the preview.
    pub preview_cap: usize,
    /// The full extracted text, once OCR has settled.
    pub text: ExtractedText,
    /// The matches found; empty when retrieval failed.
    pub matches: Vec<SearchResult>,
    /// The prediction; none when it failed.
    pub prediction: Option<OutcomePrediction>,
}

impl Pipeline {
    /// A request that has seen nothing yet.
    pub fn new(max_upload_bytes: usize, preview_cap: usize) -> (r: Pipeline)
        ensures
            r.phase == (Phase {
                stage: Stage::Idle,
                retrieval_settled: false,
                prediction_settled: false,
                max_upload_bytes,
            }),
            r.preview_cap == preview_cap,
            r.text.text@.len() == 0,
            r.matches@.len() == 0,
            r.prediction is None,
    {
        Pipeline {
            phase: Phase {
                stage: Stage::Idle,
                retrieval_settled: false,
                prediction_settled: false,
                max_upload_bytes,
            },
            preview_cap,
            text: ExtractedText { text: String::new() },
            matches: Vec::new(),
            prediction: None,
        }
    }

    /// Takes one event and says what to do next, following the stage graph.
    /// Only a refused upload or a failed extraction fails the request; a
    /// failed retrieval, prediction or opinion degrades its part of the answer.
    pub fn step(&mut self, e: Event) -> (r: Action)
        ensures
            final(self).phase == next(old(self).phase, e).0,
            kind_of(r) == next(old(self).phase, e).1,
            final(self).preview_cap == old(self).preview_cap,
            r is Ignore ==> *final(self) == *old(self),
            (e is RetrievalSettled || e is PredictionSettled) ==> final(self).text == old(self).text,
            !(e is RetrievalSettled) && !(e is OpinionSettled) ==> final(self).matches == old(
                self,
            ).matches,
            !(e is PredictionSettled) && !(e is OpinionSettled) ==> final(self).prediction == old(
                self,
            ).prediction,
            r matches Action::Respond(resp) ==> (resp.prediction_note matches Some(n) ==> n@
                == prediction_unavailable_note()),
            e matches Event::Upload { bytes, media_type, file_name } ==> match r {
                Action::Fail(err) => intake_verdict(
                    bytes@.len(),
                    media_type@,
                    old(self).phase.max_upload_bytes as nat,
                ) == Some(err),
                Action::CallOcr(a) => a.bytes == bytes && a.media_type == media_type
                    && a.file_name == file_name && a.wf(),
                _ => true,
            },
            old(self).phase.stage is Extracting ==> (e matches Event::OcrSettled(res) ==> match res {
                Ok(t) => final(self).text == t && (r matches Action::CallRetrievalAndPrediction(s, q)
                    && s.query@ == t.text@ && s.top_k == 10 && s.min_similarity == 600_000
                    && s.wf() && q.facts@ == t.text@ && q.issue@ == t.text@),
                Err(b) => r == Action::Fail(PipelineError::Extraction(b)),
            }),
            (old(self).phase.stage is RetrievingAndPredicting && !old(self).phase.retrieval_settled)
                ==> (e matches Event::RetrievalSettled(res) ==> match res {
                Ok(ms) => final(self).matches == ms,
                Err(_) => final(self).matches@.len() == 0,
            }),
            (old(self).phase.stage is RetrievingAndPredicting && !old(self).phase.prediction_settled)
                ==> (e matches Event::PredictionSettled(res) ==> match res {
                Ok(p) => final(self).prediction == Some(p),
                Err(_) => final(self).prediction is None,
            }),
            r matches Action::CallOpinion(req) ==> req.case_context.facts@ == old(self).text.text@
                && req.opinion_type@ == default_opinion_type_spec() && req.max_precedents == 5,
            r matches Action::Respond(resp) ==> response_well_formed(resp, old(self).preview_cap as nat)
                && resp.ocr_text@ == preview_of(old(self).text.text@, old(self).preview_cap as nat)
                && resp.top_cases@.to_multiset() == old(self).matches@.map_values(
                |m: SearchResult| case_of(m),
            ).to_multiset() && resp.top_cases@.len() == old(self).matches@.len()
                && resp.disclaimer@ == disclaimer() && (e matches Event::OpinionSettled(
                Ok(o),
            ) ==> resp.judge_opinion == o.full_text) && (e matches Event::OpinionSettled(Err(_))
                ==> resp.judge_opinion@ == placeholder_opinion_text()) && (match old(self).prediction {
                Some(p) => if distribution_ok(p.probabilities@) {
                    resp.predicted_outcome matches Some(o) && o.label == p.outcome && o.probabilities
                        == p.probabilities
                } else {
                    resp.predicted_outcome is None
                },
                None => resp.predicted_outcome is None,
            }),
    {
        match e {
            Event::Upload { bytes, media_type, file_name } => {
                if self.phase.stage != Stage::Idle {
                    return Action::Ignore;
                }
                match validate_upload(bytes, media_type, file_name, self.phase.max_upload_bytes) {
                    Ok(a) => {
                        self.phase.stage = Stage::Extracting;
                        Action::CallOcr(a)
                    },
                    Err(err) => {
                        self.phase.stage = Stage::Failed;
                        Action::Fail(err)
                    },
                }
            },
            Event::OcrSettled(res) => {
                if self.phase.stage != Stage::Extracting {
                    return Action::Ignore;
                }
                match res {
                    Ok(t) => {
                        let search = search_request_for(t.text.clone());
                        let predict = prediction_request_for(&t);
                        self.text = t;
                        self.phase = Phase {
                            stage: Stage::RetrievingAndPredicting,
                            retrieval_settled: false,
                            prediction_settled: false,
                            max_upload_bytes: self.phase.max_upload_bytes,
                        };
                        Action::CallRetrievalAndPrediction(search, predict)
                    },
                    Err(b) => {
                        self.phase.stage = Stage::Failed;
                        Action::Fail(PipelineError::Extraction(b))
                    },
                }
            },
            Event::RetrievalSettled(res) => {
                if self.phase.stage != Stage::RetrievingAndPredicting
                    || self.phase.retrieval_settled {
                    return Action::Ignore;
                }
                self.matches = match res {
                    Ok(ms) => ms,
                    Err(_) => Vec::new(),
                };
                self.phase.retrieval_settled = true;
                self.after_both_settled()
            },
            Event::PredictionSettled(res) => {
                if self.phase.stage != Stage::RetrievingAndPredicting
                    || self.phase.prediction_settled {
                    return Action::Ignore;
                }
                self.prediction = match res {
                    Ok(p) => Some(p),
                    Err(_) => None,
                };
                self.phase.prediction_settled = true;
                self.after_both_settled()
            },
            Event::OpinionSettled(res) => {
                if self.phase.stage != Stage::Synthesizing {
                    return Action::Ignore;
                }
                let opinion = match res {
                    Ok(o) => {
                        let mut o = o;
                        o.disclaimer = disclaimer_text();
                        o
                    },
                    Err(_) => placeholder_opinion(),
                };
                self.phase.stage = Stage::Assembled;
                let mut matches: Vec<SearchResult> = Vec::new();
                core::mem::swap(&mut matches, &mut self.matches);
                let prediction = self.prediction.take();
                Action::Respond(assemble(&self.text, matches, prediction, opinion, self.preview_cap))
            },
        }
    }

    /// Once both concurrent calls have settled, asks for the opinion.
    fn after_both_settled(&mut self) -> (r: Action)
        requires
            old(self).phase.stage is RetrievingAndPredicting,
        ensures
            final(self).text == old(self).text,
            final(self).matches == old(self).matches,
            final(self).prediction == old(self).prediction,
            final(self).preview_cap == old(self).preview_cap,
            (old(self).phase.retrieval_settled && old(self).phase.prediction_settled) ==> (
            final(self).phase == (Phase { stage: Stage::Synthesizing, ..old(self).phase })
                && (r matches Action::CallOpinion(req) && req.case_context.facts@
                == old(self).text.text@ && req.opinion_type@ == default_opinion_type_spec()
                && req.max_precedents == 5)),
            !(old(self).phase.retrieval_settled && old(self).phase.prediction_settled) ==> (
            final(self).phase == old(self).phase && r is Wait),
    {
        if self.phase.retrieval_settled && self.phase.prediction_settled {
            self.phase.stage = Stage::Synthesizing;
            Action::CallOpinion(opinion_request_for(case_context_for(&self.text)))
        } else {
            Action::Wait
        }
    }
}

/// Once a request has failed, every later event is ignored: no backend is
/// called and nothing else is answered.
pub proof fn lemma_failed_is_final(p: Phase, events: Seq<Event>)
    requires
        p.stage is Failed,
    ensures
        run(p, events).len() == events.len(),
        forall|i: int| 0 <= i < events.len() ==> #[trigger] run(p, events)[i] == ActionKind::Ignore,
    decreases events.len(),
{
    if events.len() > 0 {
        lemma_failed_is_final(p, events.drop_first());
        assert forall|i: int| 0 <= i < events.len() implies #[trigger] run(p, events)[i]
            == ActionKind::Ignore by {
            if i > 0 {
                assert(run(p, events)[i] == run(p, events.drop_first())[i - 1]);
            }
        }
    }
}

/// An empty upload is refused with the "No file uploaded" error, and no
/// backend is called for that request, whatever events follow.
pub proof fn lemma_empty_upload_calls_no_backend(
    p: Phase,
    bytes: Vec<u8>,
    media_type: String,
    file_name: String,
    later: Seq<Event>,
)
    requires
        p.stage is Idle,
        bytes@.len() == 0,
    ensures
        intake_verdict(bytes@.len(), media_type@, p.max_upload_bytes as nat) == Some(
            PipelineError::EmptyPayload,
        ),
        error_message(PipelineError::EmptyPayload) == "No file uploaded"@,
        ({
            let acts = run(p, seq![Event::Upload { bytes, media_type, file_name }] + later);
            &&& acts.len() == later.len() + 1
            &&& acts[0] == ActionKind::Fail
            &&& forall|i: int| 0 <= i < acts.len() ==> !calls_backend(#[trigger] acts[i])
        }),
{
    let e = Event::Upload { bytes, media_type, file_name };
    let events = seq![e] + later;
    assert(events[0] == e);
    assert(events.drop_first() =~= later);
    let q = next(p, e).0;
    lemma_failed_is_final(q, later);
    let acts = run(p, events);
    assert forall|i: int| 0 <= i < acts.len() implies !calls_backend(#[trigger] acts[i]) by {
        if i > 0 {
            assert(acts[i] == run(q, later)[i - 1]);
        }
    }
}

/// A successful extraction is never dropped: the next action issues both the
/// retrieval and the prediction call.
pub proof fn lemma_extracted_text_reaches_retrieval_and_prediction(p: Phase, t: ExtractedText)
    requires
        p.stage is Extracting,
    ensures
        next(p, Event::OcrSettled(Ok(t))).1 == ActionKind::CallRetrievalAndPrediction,
        next(p, Event::OcrSettled(Ok(t))).0.stage == Stage::RetrievingAndPredicting,
{
}

/// Once text has been extracted, the request never fails: every stage after
/// it degrades instead.
pub proof fn lemma_no_failure_after_extraction(p: Phase, events: Seq<Event>)
    requires
        p.stage is RetrievingAndPredicting || p.stage is Synthesizing || p.stage is Assembled,
    ensures
        run(p, events).len() == events.len(),
        forall|i: int| 0 <= i < events.len() ==> #[trigger] run(p, events)[i] != ActionKind::Fail,
    decreases events.len(),
{
    if events.len() > 0 {
        let q = next(p, events[0]).0;
        lemma_no_failure_after_extraction(q, events.drop_first());
        assert forall|i: int| 0 <= i < events.len() implies #[trigger] run(p, events)[i]
            != ActionKind::Fail by {
            if i > 0 {
                assert(run(p, events)[i] == run(q, events.drop_first())[i - 1]);
            }
        }
    }
}

/// A failed retrieval does not fail the request: the pipeline goes on, and no
/// later event makes it fail.
pub proof fn lemma_retrieval_failure_degrades(p: Phase, err: BackendError, later: Seq<Event>)
    requires
        p.stage is RetrievingAndPredicting,
        !p.retrieval_settled,
    ensures
        ({
            let acts = run(p, seq![Event::RetrievalSettled(Err(err))] + later);
            &&& acts.len() == later.len() + 1
            &&& (acts[0] == ActionKind::Wait || acts[0] == ActionKind::CallOpinion)
            &&& forall|i: int| 0 <= i < acts.len() ==> #[trigger] acts[i] != ActionKind::Fail
        }),
{
    let events = seq![Event::RetrievalSettled(Err(err))] + later;
    lemma_no_failure_after_extraction(p, events);
}

/// A failed extraction fails the request with one error, and neither the
/// prediction nor the opinion backend is called afterwards.
pub proof fn lemma_ocr_failure_is_fatal(p: Phase, err: BackendError, later: Seq<Event>)
    requires
        p.stage is Extracting,
    ensures
        ({
            let acts = run(p, seq![Event::OcrSettled(Err(err))] + later);
            &&& acts.len() == later.len() + 1
            &&& acts[0] == ActionKind::Fail
            &&& forall|i: int| 0 <= i < acts.len() ==> !calls_backend(#[trigger] acts[i])
            &&& forall|i: int| 1 <= i < acts.len() ==> #[trigger] acts[i] == ActionKind::Ignore
        }),
{
    let e = Event::OcrSettled(Err(err));
    let events = seq![e] + later;
    assert(events[0] == e);
    assert(events.drop_first() =~= later);
    let q = next(p, e).0;
    lemma_failed_is_final(q, later);
    let acts = run(p, events);
    assert forall|i: int| 0 <= i < acts.len() implies !calls_backend(#[trigger] acts[i]) by {
        if i > 0 {
            assert(acts[i] == run(q, later)[i - 1]);
        }
    }
    assert forall|i: int| 1 <= i < acts.len() implies #[trigger] acts[i] == ActionKind::Ignore by {
        assert(acts[i] == run(q, later)[i - 1]);
    }
}

} // verus!
