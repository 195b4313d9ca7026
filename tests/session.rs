use obenchmark::model::{BenchResult, BenchScore};
use obenchmark::runner::RunnerEvent;
use obenchmark::state::AppState;

fn running(current: &str, completed: usize, total: usize) -> AppState {
    AppState::Running { current_test: current.to_string(), completed, total }
}

fn progress(s: &AppState) -> (String, usize, usize) {
    match s {
        AppState::Running { current_test, completed, total } => (current_test.clone(), *completed, *total),
        other => panic!("expected a running state, got {:?}", other),
    }
}

#[test]
fn finished_counts_one_more() {
    let mut s = running("Mem Write", 2, 5);
    let e = RunnerEvent::BenchFinished("Mem Write".to_string(), 42);
    assert!(s.accepts(&e));
    s.apply_event(e);
    assert_eq!(progress(&s), ("Mem Write".to_string(), 3, 5));
}

#[test]
fn started_names_the_probe() {
    let mut s = running("", 1, 4);
    s.apply_event(RunnerEvent::BenchStarted("Disk Seq Read".to_string()));
    assert_eq!(progress(&s), ("Disk Seq Read".to_string(), 1, 4));
}

#[test]
fn start_run_from_idle() {
    let mut s = AppState::new();
    assert!(!s.is_running());
    assert!(s.start_run(21));
    assert_eq!(progress(&s), (String::new(), 0, 21));
}

#[test]
fn start_run_refused_while_running() {
    let mut s = running("A", 1, 3);
    assert!(!s.start_run(7));
    assert_eq!(progress(&s), ("A".to_string(), 1, 3));
}

#[test]
fn new_run_after_result_or_error() {
    let mut s = AppState::Showing(BenchResult { scores: Vec::new(), final_score: 5 });
    assert!(s.start_run(2));
    assert_eq!(progress(&s), (String::new(), 0, 2));
    let mut e = AppState::Error("bad".to_string());
    assert!(e.start_run(3));
    assert_eq!(progress(&e), (String::new(), 0, 3));
}

#[test]
fn done_and_error_end_the_run() {
    let mut s = running("A", 1, 1);
    let result = BenchResult {
        scores: vec![BenchScore::new("A".to_string(), 9, 1)],
        final_score: 9,
    };
    s.apply_event(RunnerEvent::Done(result));
    match &s {
        AppState::Showing(r) => {
            assert_eq!(r.final_score, 9);
            assert_eq!(r.scores[0].name, "A");
        }
        other => panic!("expected showing, got {:?}", other),
    }
    let mut t = running("B", 0, 2);
    t.apply_event(RunnerEvent::Error("io".to_string()));
    assert!(matches!(&t, AppState::Error(m) if m == "io"));
}

#[test]
fn protocol_violations_are_detected() {
    let idle = AppState::new();
    assert!(!idle.accepts(&RunnerEvent::BenchStarted("A".to_string())));
    assert!(!idle.accepts(&RunnerEvent::BenchFinished("A".to_string(), 1)));
    let full = running("A", 3, 3);
    assert!(!full.accepts(&RunnerEvent::BenchFinished("A".to_string(), 1)));
    assert!(full.accepts(&RunnerEvent::Error("x".to_string())));
    let shown = AppState::Showing(BenchResult { scores: Vec::new(), final_score: 0 });
    assert!(!shown.accepts(&RunnerEvent::BenchStarted("A".to_string())));
    assert!(shown.accepts(&RunnerEvent::Done(BenchResult { scores: Vec::new(), final_score: 0 })));
}
