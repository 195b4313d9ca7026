//! Result records produced by a benchmark run.

use vstd::prelude::*;

verus! {

/// The outcome of one probe: its name, raw measurement and weight.
#[derive(Debug)]
pub struct BenchScore {
    pub name: String,
    pub raw_score: u64,
    pub weight: u64,
}

/// Mathematical view of a [`BenchScore`].
pub struct ScoreView {
    pub name: Seq<char>,
    pub raw_score: u64,
    pub weight: u64,
}

impl View for BenchScore {
    type V = ScoreView;

    open spec fn view(&self) -> ScoreView {
        ScoreView { name: self.name@, raw_score: self.raw_score, weight: self.weight }
    }
}

/// The result of a complete run: every probe's score in execution order,
/// and the aggregated final score.
#[derive(Debug)]
pub struct BenchResult {
    pub scores: Vec<BenchScore>,
    pub final_score: u64,
}

/// Mathematical view of a [`BenchResult`].
pub struct ResultView {
    pub scores: Seq<ScoreView>,
    pub final_score: u64,
}

/// Views of a sequence of scores.
pub open spec fn score_views(scores: Seq<BenchScore>) -> Seq<ScoreView> {
    scores.map_values(|s: BenchScore| s@)
}

impl View for BenchResult {
    type V = ResultView;

    open spec fn view(&self) -> ResultView {
        ResultView { scores: score_views(self.scores@), final_score: self.final_score }
    }
}

impl BenchScore {
    pub fn new(name: String, raw_score: u64, weight: u64) -> (r: BenchScore)
        ensures
            r.name@ == name@,
            r.raw_score == raw_score,
            r.weight == weight,
    {
        BenchScore { name, raw_score, weight }
    }
}

/// A dated entry of the result history.
#[derive(Debug)]
pub struct HistoryEntry {
    pub date: String,
    pub result: BenchResult,
}

} // verus!
