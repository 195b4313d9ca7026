//! The probe runner: a single-use state machine that sequences the probes of
//! one run and says which events to emit and which probe to execute next.
//!
//! Executing a probe is outside work; the driver of a run executes the probe
//! that a step names and reports its outcome back with [`Runner::report`].

use vstd::prelude::*;
use crate::model::{BenchResult, BenchScore, ResultView, ScoreView, score_views};
use crate::score::{compute_final_score, final_score_of};

verus! {

/// What the runner knows of a probe: its name and weight.
#[derive(Debug)]
pub struct ProbeInfo {
    pub name: String,
    pub weight: u64,
}

/// Mathematical view of a [`ProbeInfo`].
pub struct ProbeView {
    pub name: Seq<char>,
    pub weight: u64,
}

impl View for ProbeInfo {
    type V = ProbeView;

    open spec fn view(&self) -> ProbeView {
        ProbeView { name: self.name@, weight: self.weight }
    }
}

impl ProbeInfo {
    pub fn new(name: String, weight: u64) -> (r: ProbeInfo)
        ensures
            r.name@ == name@,
            r.weight == weight,
    {
        ProbeInfo { name, weight }
    }
}

/// Views of a sequence of probes.
pub open spec fn probe_views(probes: Seq<ProbeInfo>) -> Seq<ProbeView> {
    probes.map_values(|p: ProbeInfo| p@)
}

/// A lifecycle event of a run.
#[derive(Debug)]
pub enum RunnerEvent {
    /// A probe is about to execute.
    BenchStarted(String),
    /// A probe finished with the given raw score.
    BenchFinished(String, u64),
    /// Every probe succeeded; the run's result.
    Done(BenchResult),
    /// A probe failed with the given message; the run is over.
    Error(String),
}

/// Mathematical view of a [`RunnerEvent`].
pub enum EventView {
    Started(Seq<char>),
    Finished(Seq<char>, u64),
    Done(ResultView),
    Failed(Seq<char>),
}

impl View for RunnerEvent {
    type V = EventView;

    open spec fn view(&self) -> EventView {
        match self {
            RunnerEvent::BenchStarted(name) => EventView::Started(name@),
            RunnerEvent::BenchFinished(name, raw) => EventView::Finished(name@, *raw),
            RunnerEvent::Done(result) => EventView::Done(result@),
            RunnerEvent::Error(msg) => EventView::Failed(msg@),
        }
    }
}

/// Views of a sequence of events.
pub open spec fn event_views(events: Seq<RunnerEvent>) -> Seq<EventView> {
    events.map_values(|e: RunnerEvent| e@)
}

/// View of a probe's outcome.
pub open spec fn outcome_view(outcome: Result<u64, String>) -> Result<u64, Seq<char>> {
    match outcome {
        Ok(raw) => Ok(raw),
        Err(msg) => Err(msg@),
    }
}

/// Where a runner stands in its single run.
#[derive(Clone, Copy, Debug, PartialEq, Eq, Structural)]
pub enum RunPhase {
    /// Constructed, not started.
    Ready,
    /// Waiting for the outcome of the probe at this index.
    Executing(usize),
    /// Every probe succeeded and the result was handed out.
    Completed,
    /// A probe failed.
    Aborted,
}

/// Mathematical view of a [`Runner`].
pub struct RunnerView {
    pub probes: Seq<ProbeView>,
    pub phase: RunPhase,
    /// Scores of the probes that succeeded so far in this run.
    pub scores: Seq<ScoreView>,
}

/// The probe a phase waits for, if any.
pub open spec fn waiting_for(phase: RunPhase) -> Option<usize> {
    match phase {
        RunPhase::Executing(i) => Some(i),
        _ => None,
    }
}

/// The event that ends a successful run with these scores.
pub open spec fn done_event(scores: Seq<ScoreView>) -> EventView {
    EventView::Done(ResultView { scores, final_score: final_score_of(scores) as u64 })
}

/// State and events after starting a run over these probes.
pub open spec fn start_spec(probes: Seq<ProbeView>) -> (RunnerView, Seq<EventView>) {
    if probes.len() == 0 {
        (
            RunnerView { probes, phase: RunPhase::Completed, scores: Seq::empty() },
            seq![done_event(Seq::empty())],
        )
    } else {
        (
            RunnerView { probes, phase: RunPhase::Executing(0), scores: Seq::empty() },
            seq![EventView::Started(probes[0].name)],
        )
    }
}

/// State and events after the probe that `v` waits for reports `outcome`.
pub open spec fn report_spec(v: RunnerView, outcome: Result<u64, Seq<char>>) -> (
    RunnerView,
    Seq<EventView>,
)
    recommends
        v.phase is Executing,
{
    let i = v.phase->Executing_0;
    let probe = v.probes[i as int];
    match outcome {
        Ok(raw) => {
            let scores = v.scores.push(ScoreView { name: probe.name, raw_score: raw, weight: probe.weight });
            if i + 1 < v.probes.len() {
                (
                    RunnerView { probes: v.probes, phase: RunPhase::Executing((i + 1) as usize), scores },
                    seq![EventView::Finished(probe.name, raw), EventView::Started(v.probes[i + 1].name)],
                )
            } else {
                (
                    RunnerView { probes: v.probes, phase: RunPhase::Completed, scores: Seq::empty() },
                    seq![EventView::Finished(probe.name, raw), done_event(scores)],
                )
            }
        },
        Err(msg) => (
            RunnerView { probes: v.probes, phase: RunPhase::Aborted, scores: v.scores },
            seq![EventView::Failed(msg)],
        ),
    }
}

/// Events emitted while the outcomes are reported in order, from state `v`;
/// outcomes that arrive after the run is over are ignored.
pub open spec fn run_from(v: RunnerView, outcomes: Seq<Result<u64, Seq<char>>>) -> Seq<EventView>
    decreases outcomes.len(),
{
    if outcomes.len() == 0 || !(v.phase is Executing) {
        Seq::empty()
    } else {
        let (next, events) = report_spec(v, outcomes[0]);
        events + run_from(next, outcomes.drop_first())
    }
}

/// Every event of a run over `probes` whose probes report `outcomes` in order.
pub open spec fn run_trace(probes: Seq<ProbeView>, outcomes: Seq<Result<u64, Seq<char>>>) -> Seq<
    EventView,
> {
    start_spec(probes).1 + run_from(start_spec(probes).0, outcomes)
}

/// Outcomes of probes that all succeed with these raw scores.
pub open spec fn successes(raws: Seq<u64>) -> Seq<Result<u64, Seq<char>>> {
    raws.map_values(|r: u64| Ok::<u64, Seq<char>>(r))
}

/// Scores of the first `k` probes, when probe `j` scored `raws[j]`.
pub open spec fn scores_of(probes: Seq<ProbeView>, raws: Seq<u64>, k: int) -> Seq<ScoreView> {
    Seq::new(
        k as nat,
        |j: int| ScoreView { name: probes[j].name, raw_score: raws[j], weight: probes[j].weight },
    )
}

/// `Started`/`Finished` for each probe in order, then one `Done`.
pub open spec fn success_trace(probes: Seq<ProbeView>, raws: Seq<u64>) -> Seq<EventView> {
    let n = probes.len() as int;
    Seq::new(
        (2 * n + 1) as nat,
        |x: int|
            if x == 2 * n {
                done_event(scores_of(probes, raws, n))
            } else if x % 2 == 0 {
                EventView::Started(probes[x / 2].name)
            } else {
                EventView::Finished(probes[x / 2].name, raws[x / 2])
            },
    )
}

/// `Started`/`Finished` for the first `k - 1` probes, then `Started` for
/// probe `k - 1` and the `Failed` event of its error.
pub open spec fn failure_trace(
    probes: Seq<ProbeView>,
    outcomes: Seq<Result<u64, Seq<char>>>,
    k: int,
) -> Seq<EventView> {
    Seq::new(
        (2 * k) as nat,
        |x: int|
            if x == 2 * k - 1 {
                EventView::Failed(outcomes[k - 1]->Err_0)
            } else if x % 2 == 0 {
                EventView::Started(probes[x / 2].name)
            } else {
                EventView::Finished(probes[x / 2].name, outcomes[x / 2]->Ok_0)
            },
    )
}

proof fn lemma_success_tail(probes: Seq<ProbeView>, raws: Seq<u64>, i: int)
    requires
        raws.len() == probes.len(),
        probes.len() <= usize::MAX,
        0 <= i < probes.len(),
    ensures
        run_from(
            RunnerView {
                probes,
                phase: RunPhase::Executing(i as usize),
                scores: scores_of(probes, raws, i),
            },
            successes(raws).subrange(i, raws.len() as int),
        ) =~= success_trace(probes, raws).subrange(2 * i + 1, 2 * probes.len() as int + 1),
    decreases probes.len() - i,
{
    let n = probes.len() as int;
    let v = RunnerView {
        probes,
        phase: RunPhase::Executing(i as usize),
        scores: scores_of(probes, raws, i),
    };
    let outs = successes(raws).subrange(i, n);
    let (next, events) = report_spec(v, outs[0]);
    let whole = success_trace(probes, raws);
    assert(outs[0] == Ok::<u64, Seq<char>>(raws[i]));
    assert(v.scores.push(
        ScoreView { name: probes[i].name, raw_score: raws[i], weight: probes[i].weight },
    ) =~= scores_of(probes, raws, i + 1));
    assert((2 * i + 1) % 2 == 1 && (2 * i + 1) / 2 == i);
    assert((2 * i + 2) % 2 == 0 && (2 * i + 2) / 2 == i + 1);
    if i + 1 < n {
        lemma_success_tail(probes, raws, i + 1);
        assert(outs.drop_first() =~= successes(raws).subrange(i + 1, n));
        assert(events =~= whole.subrange(2 * i + 1, 2 * i + 3));
    } else {
        assert(run_from(next, outs.drop_first()) =~= Seq::<EventView>::empty());
        assert(events =~= whole.subrange(2 * i + 1, 2 * i + 3));
    }
}

/// When every probe of a run succeeds, the run emits a `Started` and then a
/// `Finished` event for each probe, in list order, followed by exactly one
/// `Done` event that holds every score and the final score.
pub proof fn successful_run_events(probes: Seq<ProbeView>, raws: Seq<u64>)
    requires
        raws.len() == probes.len(),
        probes.len() <= usize::MAX,
    ensures
        run_trace(probes, successes(raws)) == success_trace(probes, raws),
        run_trace(probes, successes(raws)).len() == 2 * probes.len() + 1,
        forall|j: int|
            0 <= j < probes.len() ==> #[trigger] run_trace(probes, successes(raws))[2 * j]
                == EventView::Started(probes[j].name),
        forall|j: int|
            0 <= j < probes.len() ==> #[trigger] run_trace(probes, successes(raws))[2 * j + 1]
                == EventView::Finished(probes[j].name, raws[j]),
        run_trace(probes, successes(raws))[2 * probes.len() as int] == done_event(
            scores_of(probes, raws, probes.len() as int),
        ),
{
    let n = probes.len() as int;
    let t = run_trace(probes, successes(raws));
    let whole = success_trace(probes, raws);
    if n == 0 {
        assert(scores_of(probes, raws, 0) =~= Seq::<ScoreView>::empty());
        assert(run_from(start_spec(probes).0, successes(raws)) =~= Seq::<EventView>::empty());
        assert(t =~= whole);
    } else {
        assert(scores_of(probes, raws, 0) =~= Seq::<ScoreView>::empty());
        assert(successes(raws).subrange(0, n) =~= successes(raws));
        lemma_success_tail(probes, raws, 0);
        assert(t =~= whole);
    }
    assert forall|j: int| 0 <= j < n implies #[trigger] t[2 * j] == EventView::Started(
        probes[j].name,
    ) by {
        assert((2 * j) % 2 == 0 && (2 * j) / 2 == j);
    }
    assert forall|j: int| 0 <= j < n implies #[trigger] t[2 * j + 1] == EventView::Finished(
        probes[j].name,
        raws[j],
    ) by {
        assert((2 * j + 1) % 2 == 1 && (2 * j + 1) / 2 == j);
    }
}

proof fn lemma_failure_tail(
    probes: Seq<ProbeView>,
    outcomes: Seq<Result<u64, Seq<char>>>,
    k: int,
    i: int,
    scores: Seq<ScoreView>,
)
    requires
        probes.len() <= usize::MAX,
        1 <= k <= probes.len(),
        k <= outcomes.len(),
        forall|j: int| 0 <= j < k - 1 ==> outcomes[j] is Ok,
        outcomes[k - 1] is Err,
        0 <= i < k,
    ensures
        run_from(
            RunnerView { probes, phase: RunPhase::Executing(i as usize), scores },
            outcomes.subrange(i, outcomes.len() as int),
        ) =~= failure_trace(probes, outcomes, k).subrange(2 * i + 1, 2 * k),
    decreases k - i,
{
    let v = RunnerView { probes, phase: RunPhase::Executing(i as usize), scores };
    let outs = outcomes.subrange(i, outcomes.len() as int);
    let (next, events) = report_spec(v, outs[0]);
    let whole = failure_trace(probes, outcomes, k);
    assert((2 * i + 1) % 2 == 1 && (2 * i + 1) / 2 == i);
    assert((2 * i + 2) % 2 == 0 && (2 * i + 2) / 2 == i + 1);
    if i + 1 < k {
        let raw = outcomes[i]->Ok_0;
        let pushed = scores.push(
            ScoreView { name: probes[i].name, raw_score: raw, weight: probes[i].weight },
        );
        lemma_failure_tail(probes, outcomes, k, i + 1, pushed);
        assert(outs.drop_first() =~= outcomes.subrange(i + 1, outcomes.len() as int));
        assert(events =~= whole.subrange(2 * i + 1, 2 * i + 3));
    } else {
        assert(run_from(next, outs.drop_first()) =~= Seq::<EventView>::empty());
        assert(events =~= whole.subrange(2 * i + 1, 2 * k));
    }
}

/// When the `k`-th probe of a run (counting from one) fails and those before
/// it succeed, the run emits `k` `Started` events, `Finished` events for the
/// `k - 1` probes before it, and one `Failed` event last; no `Done` event is
/// emitted. Outcomes after the failure are ignored.
pub proof fn failed_run_events(
    probes: Seq<ProbeView>,
    outcomes: Seq<Result<u64, Seq<char>>>,
    k: int,
)
    requires
        probes.len() <= usize::MAX,
        1 <= k <= probes.len(),
        k <= outcomes.len(),
        forall|j: int| 0 <= j < k - 1 ==> outcomes[j] is Ok,
        outcomes[k - 1] is Err,
    ensures
        run_trace(probes, outcomes) == failure_trace(probes, outcomes, k),
        run_trace(probes, outcomes).len() == 2 * k,
        forall|j: int|
            0 <= j < k ==> #[trigger] run_trace(probes, outcomes)[2 * j] == EventView::Started(
                probes[j].name,
            ),
        forall|j: int|
            0 <= j < k - 1 ==> #[trigger] run_trace(probes, outcomes)[2 * j + 1]
                == EventView::Finished(probes[j].name, outcomes[j]->Ok_0),
        run_trace(probes, outcomes)[2 * k - 1] == EventView::Failed(outcomes[k - 1]->Err_0),
        forall|x: int|
            0 <= x < run_trace(probes, outcomes).len() ==> !(#[trigger] run_trace(
                probes,
                outcomes,
            )[x] is Done),
{
    let t = run_trace(probes, outcomes);
    let whole = failure_trace(probes, outcomes, k);
    assert(outcomes.subrange(0, outcomes.len() as int) =~= outcomes);
    lemma_failure_tail(probes, outcomes, k, 0, Seq::empty());
    assert(t =~= whole);
    assert forall|j: int| 0 <= j < k implies #[trigger] t[2 * j] == EventView::Started(
        probes[j].name,
    ) by {
        assert((2 * j) % 2 == 0 && (2 * j) / 2 == j);
    }
    assert forall|j: int| 0 <= j < k - 1 implies #[trigger] t[2 * j + 1] == EventView::Finished(
        probes[j].name,
        outcomes[j]->Ok_0,
    ) by {
        assert((2 * j + 1) % 2 == 1 && (2 * j + 1) / 2 == j);
    }
}

/// What the driver of a run does next: emit `events` in order, then execute
/// the probe at index `execute`, if any.
#[derive(Debug)]
pub struct RunnerStep {
    pub events: Vec<RunnerEvent>,
    pub execute: Option<usize>,
}

/// Sequences the probes of a single run.
#[derive(Debug)]
pub struct Runner {
    probes: Vec<ProbeInfo>,
    scores: Vec<BenchScore>,
    phase: RunPhase,
}

impl View for Runner {
    type V = RunnerView;

    closed spec fn view(&self) -> RunnerView {
        RunnerView {
            probes: probe_views(self.probes@),
            phase: self.phase,
            scores: score_views(self.scores@),
        }
    }
}

impl Runner {
    /// A runner is well formed when the probe it waits for exists.
    pub open spec fn wf(&self) -> bool {
        match self@.phase {
            RunPhase::Executing(i) => i < self@.probes.len(),
            _ => true,
        }
    }

    /// A runner, ready to run these probes in this order.
    pub fn new(probes: Vec<ProbeInfo>) -> (r: Runner)
        ensures
            r.wf(),
            r@.probes == probe_views(probes@),
            r@.phase == RunPhase::Ready,
            r@.scores == Seq::<ScoreView>::empty(),
    {
        let r = Runner { probes, scores: Vec::new(), phase: RunPhase::Ready };
        assert(r@.scores =~= Seq::<ScoreView>::empty());
        r
    }

    /// Where the run stands.
    pub fn phase(&self) -> (r: RunPhase)
        ensures
            r == self@.phase,
    {
        self.phase
    }

    /// Number of probes in the run.
    pub fn probe_count(&self) -> (r: usize)
        ensures
            r == self@.probes.len(),
    {
        self.probes.len()
    }

    /// Starts the run: announces the first probe, or, with no probes, ends
    /// the run at once with an empty result.
    pub fn start(&mut self) -> (step: RunnerStep)
        requires
            old(self).wf(),
            old(self)@.phase == RunPhase::Ready,
        ensures
            final(self).wf(),
            final(self)@ == start_spec(old(self)@.probes).0,
            event_views(step.events@) == start_spec(old(self)@.probes).1,
            step.execute == waiting_for(final(self)@.phase),
    {
        let ghost probes = self@.probes;
        let mut events: Vec<RunnerEvent> = Vec::new();
        if self.probes.len() == 0 {
            let scores: Vec<BenchScore> = Vec::new();
            let final_score = compute_final_score(scores.as_slice());
            assert(score_views(scores@) =~= Seq::<ScoreView>::empty());
            events.push(RunnerEvent::Done(BenchResult { scores, final_score }));
            self.scores = Vec::new();
            self.phase = RunPhase::Completed;
            assert(self@.scores =~= Seq::<ScoreView>::empty());
            assert(event_views(events@) =~= start_spec(probes).1);
            RunnerStep { events, execute: None }
        } else {
            let name = self.probes[0].name.clone();
            events.push(RunnerEvent::BenchStarted(name));
            self.scores = Vec::new();
            self.phase = RunPhase::Executing(0);
            assert(self@.scores =~= Seq::<ScoreView>::empty());
            assert(event_views(events@) =~= start_spec(probes).1);
            RunnerStep { events, execute: Some(0) }
        }
    }

    /// Takes the outcome of the probe the run waits for. A success is
    /// recorded and announces the next probe, or, after the last probe, ends
    /// the run with its result; a failure ends the run at once.
    pub fn report(&mut self, outcome: Result<u64, String>) -> (step: RunnerStep)
        requires
            old(self).wf(),
            old(self)@.phase is Executing,
        ensures
            final(self).wf(),
            final(self)@ == report_spec(old(self)@, outcome_view(outcome)).0,
            event_views(step.events@) == report_spec(old(self)@, outcome_view(outcome)).1,
            step.execute == waiting_for(final(self)@.phase),
    {
        let ghost before = self@;
        let ghost expected = report_spec(before, outcome_view(outcome));
        let i: usize = match self.phase {
            RunPhase::Executing(k) => k,
            _ => 0,
        };
        let mut events: Vec<RunnerEvent> = Vec::new();
        match outcome {
            Ok(raw) => {
                let n: usize = self.probes.len();
                assert(i < n);
                let name = self.probes[i].name.clone();
                let weight = self.probes[i].weight;
                self.scores.push(BenchScore { name: name.clone(), raw_score: raw, weight });
                events.push(RunnerEvent::BenchFinished(name, raw));
                if i + 1 < n {
                    let next = self.probes[i + 1].name.clone();
                    events.push(RunnerEvent::BenchStarted(next));
                    self.phase = RunPhase::Executing(i + 1);
                    assert(self@.scores =~= expected.0.scores);
                    assert(event_views(events@) =~= expected.1);
                    RunnerStep { events, execute: Some(i + 1) }
                } else {
                    let ghost done = before.scores.push(
                        ScoreView { name: before.probes[i as int].name, raw_score: raw, weight },
                    );
                    assert(score_views(self.scores@) =~= done);
                    let final_score = compute_final_score(self.scores.as_slice());
                    let mut scores: Vec<BenchScore> = Vec::new();
                    std::mem::swap(&mut scores, &mut self.scores);
                    events.push(RunnerEvent::Done(BenchResult { scores, final_score }));
                    self.phase = RunPhase::Completed;
                    assert(self@.scores =~= Seq::<ScoreView>::empty());
                    assert(event_views(events@) =~= expected.1);
                    RunnerStep { events, execute: None }
                }
            },
            Err(msg) => {
                events.push(RunnerEvent::Error(msg));
                self.phase = RunPhase::Aborted;
                assert(event_views(events@) =~= expected.1);
                RunnerStep { events, execute: None }
            },
        }
    }
}

} // verus!
