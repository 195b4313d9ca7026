//! The consumer-side session state: how the events of a run are rendered.

use vstd::prelude::*;
use crate::model::{BenchResult, ResultView};
use crate::runner::{EventView, RunnerEvent};

verus! {

/// The state of a benchmarking session.
#[derive(Debug)]
pub enum AppState {
    /// No run yet.
    Idle,
    /// A run is in flight.
    Running { current_test: String, completed: usize, total: usize },
    /// The last run completed with this result.
    Showing(BenchResult),
    /// The last run failed with this message.
    Error(String),
}

/// Mathematical view of an [`AppState`].
pub enum StateView {
    Idle,
    Running { current_test: Seq<char>, completed: usize, total: usize },
    Showing(ResultView),
    Errored(Seq<char>),
}

impl View for AppState {
    type V = StateView;

    open spec fn view(&self) -> StateView {
        match self {
            AppState::Idle => StateView::Idle,
            AppState::Running { current_test, completed, total } => StateView::Running {
                current_test: current_test@,
                completed: *completed,
                total: *total,
            },
            AppState::Showing(result) => StateView::Showing(result@),
            AppState::Error(msg) => StateView::Errored(msg@),
        }
    }
}

/// A session state is well formed when a run has not completed more probes
/// than it has.
pub open spec fn state_wf(v: StateView) -> bool {
    v matches StateView::Running { completed, total, .. } ==> completed <= total
}

/// The events that are valid in a state: `Started` and `Finished` only
/// during a run, and `Finished` only while probes remain; `Done` and `Failed`
/// at any time.
pub open spec fn event_valid(v: StateView, e: EventView) -> bool {
    match e {
        EventView::Started(_) => v is Running,
        EventView::Finished(_, _) => v matches StateView::Running { completed, total, .. }
            && completed < total,
        _ => true,
    }
}

/// The state after a valid event.
pub open spec fn next_state(v: StateView, e: EventView) -> StateView
    recommends
        event_valid(v, e),
{
    match e {
        EventView::Started(name) => StateView::Running {
            current_test: name,
            completed: v->completed,
            total: v->total,
        },
        EventView::Finished(_, _) => StateView::Running {
            current_test: v->current_test,
            completed: (v->completed + 1) as usize,
            total: v->total,
        },
        EventView::Done(result) => StateView::Showing(result),
        EventView::Failed(msg) => StateView::Errored(msg),
    }
}

impl AppState {
    /// A new session, with no run yet.
    pub fn new() -> (r: AppState)
        ensures
            r@ == StateView::Idle,
    {
        AppState::Idle
    }

    /// Whether a run is in flight.
    pub fn is_running(&self) -> (r: bool)
        ensures
            r == (self@ is Running),
    {
        match self {
            AppState::Running { .. } => true,
            _ => false,
        }
    }

    /// Starts a new run of `total` probes, unless one is in flight, which is
    /// left alone: the request is then refused.
    pub fn start_run(&mut self, total: usize) -> (accepted: bool)
        ensures
            accepted == !(old(self)@ is Running),
            accepted ==> final(self)@ == (StateView::Running {
                current_test: Seq::empty(),
                completed: 0,
                total,
            }),
            !accepted ==> final(self)@ == old(self)@,
            state_wf(old(self)@) ==> state_wf(final(self)@),
    {
        if self.is_running() {
            false
        } else {
            *self = AppState::Running { current_test: String::new(), completed: 0, total };
            true
        }
    }

    /// Whether `event` is valid in this state (see [`event_valid`]).
    pub fn accepts(&self, event: &RunnerEvent) -> (r: bool)
        ensures
            r == event_valid(self@, event@),
    {
        match event {
            RunnerEvent::BenchStarted(_) => self.is_running(),
            RunnerEvent::BenchFinished(_, _) => match self {
                AppState::Running { completed, total, .. } => *completed < *total,
                _ => false,
            },
            _ => true,
        }
    }

    /// Applies one event of the run: `Started` names the current probe,
    /// `Finished` counts one more completed probe, `Done` shows the result,
    /// and `Failed` shows the error.
    pub fn apply_event(&mut self, event: RunnerEvent)
        requires
            state_wf(old(self)@),
            event_valid(old(self)@, event@),
        ensures
            state_wf(final(self)@),
            final(self)@ == next_state(old(self)@, event@),
    {
        match event {
            RunnerEvent::BenchStarted(name) => {
                let (completed, total) = match self {
                    AppState::Running { completed, total, .. } => (*completed, *total),
                    _ => (0, 0),
                };
                *self = AppState::Running { current_test: name, completed, total };
            },
            RunnerEvent::BenchFinished(_, _) => {
                match self {
                    AppState::Running { completed, .. } => {
                        *completed = *completed + 1;
                    },
                    _ => {},
                }
            },
            RunnerEvent::Done(result) => {
                *self = AppState::Showing(result);
            },
            RunnerEvent::Error(msg) => {
                *self = AppState::Error(msg);
            },
        }
    }
}

/// Within a run, a valid event that keeps the run going never lowers the
/// count of completed probes and never changes the total.
pub proof fn progress_never_decreases(v: StateView, e: EventView)
    requires
        v is Running,
        state_wf(v),
        event_valid(v, e),
        next_state(v, e) is Running,
    ensures
        next_state(v, e)->completed >= v->completed,
        next_state(v, e)->total == v->total,
        state_wf(next_state(v, e)),
{
}

} // verus!
