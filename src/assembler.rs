//! Builds the caller-facing answer: the text preview, the ranked cases, the
//! prediction (kept only when its labels differ and its probabilities sum to
//! 1) and the opinion.
use crate::adapters::{check_distribution, distribution_ok, ExtractedText};
use crate::models::{GeneratedOpinion, LabelProbability, OutcomePrediction, SearchResult};
use crate::text::{
    compare_text, ellipsis, lemma_lex_asymmetric, lemma_lex_total, lemma_lex_transitive, lex_lt,
    preview_of, preview_text, TextOrder,
};
use vstd::prelude::*;
use vstd::multiset::Multiset;
use vstd::seq_lib::group_to_multiset_ensures;

verus! {

/// Characters of extracted text shown in a preview.
pub const PREVIEW_CHARS: usize = 500;

/// One case as the caller sees it.
#[derive(Debug, Clone)]
pub struct CaseResult {
    pub case_name: String,
    pub citation: String,
    /// Relevance, in millionths.
    pub relevance_score: u32,
    pub snippet: String,
}

/// The predicted label and its distribution, as the caller sees them.
#[derive(Debug, Clone)]
pub struct OutcomeSummary {
    pub label: String,
    pub probabilities: Vec<LabelProbability>,
}

/// The aggregated answer to one analysis request.
#[derive(Debug, Clone)]
pub struct AnalyzeResponse {
    pub status: String,
    pub ocr_text: String,
    /// None when prediction was unavailable; `prediction_note` says so.
    pub predicted_outcome: Option<OutcomeSummary>,
    pub prediction_note: Option<String>,
    pub top_cases: Vec<CaseResult>,
    pub judge_opinion: String,
    pub disclaimer: String,
}

/// `a` may stand before `b`: a higher relevance, or an equal one and a name
/// that is not later.
pub open spec fn case_precedes(a: CaseResult, b: CaseResult) -> bool {
    a.relevance_score > b.relevance_score || (a.relevance_score == b.relevance_score
        && !lex_lt(b.case_name@, a.case_name@))
}

/// Cases ranked by relevance descending, then by name ascending.
pub open spec fn ranked(s: Seq<CaseResult>) -> bool {
    forall|i: int, j: int| 0 <= i < j < s.len() ==> case_precedes(#[trigger] s[i], #[trigger] s[j])
}

proof fn lemma_precedes_transitive(a: CaseResult, b: CaseResult, c: CaseResult)
    requires
        case_precedes(a, b),
        case_precedes(b, c),
    ensures
        case_precedes(a, c),
{
    if a.relevance_score == c.relevance_score {
        let (x, y, z) = (a.case_name@, b.case_name@, c.case_name@);
        lemma_lex_total(x, y);
        lemma_lex_total(y, z);
        if lex_lt(z, x) {
            if x == y {
                lemma_lex_asymmetric(y, z);
            } else if y == z {
                lemma_lex_asymmetric(x, y);
            } else {
                lemma_lex_transitive(x, y, z);
                lemma_lex_asymmetric(x, z);
            }
        }
    }
}

proof fn lemma_precedes_total(a: CaseResult, b: CaseResult)
    ensures
        case_precedes(a, b) || case_precedes(b, a),
{
    lemma_lex_total(a.case_name@, b.case_name@);
    lemma_lex_asymmetric(a.case_name@, b.case_name@);
}

/// Whether case `a` may stand before case `b`.
pub fn precedes(a: &CaseResult, b: &CaseResult) -> (r: bool)
    ensures
        r == case_precedes(*a, *b),
{
    if a.relevance_score != b.relevance_score {
        a.relevance_score > b.relevance_score
    } else {
        compare_text(b.case_name.as_str(), a.case_name.as_str()) != TextOrder::Less
    }
}

/// How a search match is shown: its citation is the case number of the
/// embedded document where there is one, else the court.
pub open spec fn case_of(m: SearchResult) -> CaseResult {
    CaseResult {
        case_name: m.case_name,
        citation: match m.full_document {
            Some(d) => match d.case_number {
                Some(n) => n,
                None => m.court,
            },
            None => m.court,
        },
        relevance_score: m.similarity_score,
        snippet: m.snippet,
    }
}

/// Shows one search match as a case.
pub fn case_result_of(m: SearchResult) -> (r: CaseResult)
    ensures
        r == case_of(m),
{
    let citation = match m.full_document {
        Some(d) => match d.case_number {
            Some(n) => n,
            None => m.court,
        },
        None => m.court,
    };
    CaseResult {
        case_name: m.case_name,
        citation,
        relevance_score: m.similarity_score,
        snippet: m.snippet,
    }
}

/// Inserts `c` into ranked cases where the ranking stays intact.
fn insert_ranked(cases: &mut Vec<CaseResult>, c: CaseResult)
    requires
        ranked(old(cases)@),
    ensures
        ranked(final(cases)@),
        final(cases)@.to_multiset() == old(cases)@.to_multiset().insert(c),
{
    let mut p: usize = 0;
    while p < cases.len() && precedes(&cases[p], &c)
        invariant
            p <= cases@.len(),
            forall|k: int| 0 <= k < p ==> case_precedes(#[trigger] cases@[k], c),
        decreases cases@.len() - p,
    {
        p = p + 1;
    }
    proof {
        if p < cases@.len() {
            lemma_precedes_total(cases@[p as int], c);
            assert forall|k: int| p <= k < cases@.len() implies case_precedes(
                c,
                #[trigger] cases@[k],
            ) by {
                if k > p {
                    lemma_precedes_transitive(c, cases@[p as int], cases@[k]);
                }
            }
        }
    }
    let ghost before = cases@;
    cases.insert(p, c);
    proof {
        broadcast use vstd::seq_lib::to_multiset_insert;

        before.insert_ensures(p as int, c);
        assert forall|i: int, j: int| 0 <= i < j < cases@.len() implies case_precedes(
            #[trigger] cases@[i],
            #[trigger] cases@[j],
        ) by {
            if j < p {
            } else if i < p && j == p {
            } else if i < p {
                assert(cases@[j] == before[j - 1]);
            } else if i == p {
                assert(cases@[j] == before[j - 1]);
            } else {
                assert(cases@[i] == before[i - 1]);
                assert(cases@[j] == before[j - 1]);
            }
        }
    }
}

/// Shows search matches as cases, ranked by relevance descending and, among
/// equal relevance, by case name ascending. No match is lost or added.
pub fn rank_cases(matches: Vec<SearchResult>) -> (r: Vec<CaseResult>)
    ensures
        ranked(r@),
        r@.to_multiset() == matches@.map_values(|m: SearchResult| case_of(m)).to_multiset(),
        r@.len() == matches@.len(),
{
    broadcast use group_to_multiset_ensures;

    let ghost all = matches@.map_values(|m: SearchResult| case_of(m));
    let mut rest = matches;
    let mut out: Vec<CaseResult> = Vec::new();
    assert(out@.to_multiset() =~= Multiset::<CaseResult>::empty());
    while rest.len() > 0
        invariant
            ranked(out@),
            all.to_multiset() == out@.to_multiset().add(
                rest@.map_values(|m: SearchResult| case_of(m)).to_multiset(),
            ),
        decreases rest@.len(),
    {
        let ghost prev = rest@;
        let m = rest.pop().unwrap();
        assert(prev.map_values(|m: SearchResult| case_of(m)) =~= rest@.map_values(
            |m: SearchResult| case_of(m),
        ).push(case_of(m)));
        let c = case_result_of(m);
        let ghost out_before = out@;
        insert_ranked(&mut out, c);
        proof {
            let tail = rest@.map_values(|m: SearchResult| case_of(m));
            vstd::seq_lib::to_multiset_build(tail, c);
            assert(out_before.to_multiset().add(tail.push(c).to_multiset()) =~= out@.to_multiset().add(
                tail.to_multiset(),
            ));
        }
    }
    assert(rest@.map_values(|m: SearchResult| case_of(m)) =~= Seq::<CaseResult>::empty());
    assert(out@.to_multiset() =~= all.to_multiset());
    assert(all.len() == matches@.len());
    assert(out@.len() == out@.to_multiset().len());
    assert(all.len() == all.to_multiset().len());
    out
}

/// The answer is well formed: status "ok", a preview within its budget
/// plus the marker, ranked cases, and a prediction only with distinct labels
/// whose probabilities sum to 1.
pub open spec fn response_well_formed(r: AnalyzeResponse, cap: nat) -> bool {
    &&& r.status@ == "ok"@
    &&& r.ocr_text@.len() <= cap + ellipsis().len()
    &&& ranked(r.top_cases@)
    &&& (r.predicted_outcome matches Some(p) ==> distribution_ok(p.probabilities@))
    &&& (r.predicted_outcome is None <==> r.prediction_note is Some)
}

/// The note that stands in place of an unavailable prediction.
pub open spec fn prediction_unavailable_note() -> Seq<char> {
    "Outcome prediction is unavailable for this brief."@
}

/// Assembles the answer of a request from what each stage produced. The
/// preview is cut at `preview_cap` characters; the full text is not touched.
pub fn assemble(
    text: &ExtractedText,
    matches: Vec<SearchResult>,
    prediction: Option<OutcomePrediction>,
    opinion: GeneratedOpinion,
    preview_cap: usize,
) -> (r: AnalyzeResponse)
    ensures
        response_well_formed(r, preview_cap as nat),
        r.ocr_text@ == preview_of(text.text@, preview_cap as nat),
        r.top_cases@.to_multiset() == matches@.map_values(|m: SearchResult| case_of(m)).to_multiset(),
        r.top_cases@.len() == matches@.len(),
        match prediction {
            Some(p) => if distribution_ok(p.probabilities@) {
                r.predicted_outcome matches Some(s) && s.label == p.outcome && s.probabilities
                    == p.probabilities
            } else {
                r.predicted_outcome is None
            },
            None => r.predicted_outcome is None,
        },
        r.prediction_note matches Some(n) ==> n@ == prediction_unavailable_note(),
        r.judge_opinion == opinion.full_text,
        r.disclaimer == opinion.disclaimer,
{
    proof {
        reveal_strlit("ok");
    }
    let ocr_text = preview_text(text.text.as_str(), preview_cap);
    let predicted_outcome = match prediction {
        Some(p) => if check_distribution(&p.probabilities) {
            Some(OutcomeSummary { label: p.outcome, probabilities: p.probabilities })
        } else {
            None
        },
        None => None,
    };
    let prediction_note = if predicted_outcome.is_some() {
        None
    } else {
        Some(String::from_str("Outcome prediction is unavailable for this brief."))
    };
    AnalyzeResponse {
        status: String::from_str("ok"),
        ocr_text,
        predicted_outcome,
        prediction_note,
        top_cases: rank_cases(matches),
        judge_opinion: opinion.full_text,
        disclaimer: opinion.disclaimer,
    }
}

} // verus!
