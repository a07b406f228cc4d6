use shiwakekun::batch::{BatchRunner, BatchStep, ProgressEvent};
use shiwakekun::outcome::MoveResult;
use shiwakekun::settings::EngineConfig;

fn config(batch_size: usize) -> EngineConfig {
    EngineConfig { batch_size, batch_delay_ms: 50, max_retries: 3, retry_backoff_ms: 100 }
}

/// Runs the batch machine; `cancel_after` gives the number of processed files
/// from which on cancellation is requested. Returns every event and the pauses.
fn run(total: usize, batch_size: usize, cancel_after: Option<usize>) -> (Vec<ProgressEvent>, usize, BatchRunner) {
    let (mut runner, first) = BatchRunner::start(total, &config(batch_size));
    let mut events = vec![first];
    let mut pauses = 0;
    loop {
        let cancel = cancel_after.map_or(false, |n| runner.processed_files() >= n);
        match runner.next(cancel) {
            BatchStep::Process(i) => {
                let r = MoveResult::moved(&format!("/in/f{}.txt", i), "Documents");
                events.push(runner.record(r));
            }
            BatchStep::Pause(ms) => {
                assert_eq!(ms, 50);
                pauses += 1;
            }
            BatchStep::Finished(e) => {
                events.push(e);
                break;
            }
        }
    }
    (events, pauses, runner)
}

#[test]
fn batch_run_ends_with_one_terminal_event() {
    let (events, pauses, runner) = run(5, 2, None);
    assert_eq!(events.len(), 7);
    assert_eq!(events.iter().filter(|e| e.finished).count(), 1);
    assert!(events.last().unwrap().finished);
    for w in events.windows(2) {
        assert!(w[0].processed_files <= w[1].processed_files);
    }
    assert_eq!(events.last().unwrap().processed_files, 5);
    assert!(events.iter().all(|e| e.total_files == 5));
    assert_eq!(pauses, 3);
    assert!(runner.is_finished());
    assert!(!runner.was_cancelled());
    assert_eq!(runner.results().len(), 5);
}

#[test]
fn batch_cancel_after_two_of_ten() {
    let (events, _pauses, runner) = run(10, 10, Some(2));
    let per_file: Vec<&ProgressEvent> = events.iter().filter(|e| e.current_result.is_some()).collect();
    assert_eq!(per_file.len(), 2);
    let last = events.last().unwrap();
    assert!(last.finished);
    assert_eq!(last.processed_files, 2);
    assert!(last.current_result.is_none());
    assert_eq!(events.iter().filter(|e| e.finished).count(), 1);
    assert!(runner.was_cancelled());
    assert_eq!(runner.results().len(), 2);
    assert_eq!(runner.results()[1].source_path, "/in/f1.txt");
}

#[test]
fn batch_cancel_before_first_file() {
    let (events, _pauses, runner) = run(3, 10, Some(0));
    assert_eq!(events.len(), 2);
    assert!(events[1].finished);
    assert_eq!(events[1].processed_files, 0);
    assert!(runner.results().is_empty());
}

#[test]
fn batch_of_no_files_finishes_at_once() {
    let (events, pauses, runner) = run(0, 10, None);
    assert_eq!(events.len(), 2);
    assert!(!events[0].finished);
    assert!(events[1].finished);
    assert_eq!(events[1].processed_files, 0);
    assert_eq!(pauses, 0);
    assert!(!runner.was_cancelled());
}

#[test]
fn batch_events_carry_each_result() {
    let (events, _pauses, runner) = run(3, 10, None);
    assert_eq!(runner.total_files(), 3);
    let counts: Vec<usize> = events.iter().map(|e| e.processed_files).collect();
    assert_eq!(counts, vec![0, 1, 2, 3, 3]);
    let r = events[2].current_result.as_ref().unwrap();
    assert_eq!(r.source_path, "/in/f1.txt");
    assert!(r.succeeded);
    assert_eq!(r.detail, "Documents");
}
