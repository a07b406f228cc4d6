//! The decisions of a batch run: which file comes next, when to pause, when to
//! stop, and the progress events that report it all.
use vstd::prelude::*;
use crate::outcome::{MoveResult, result_view};
use crate::settings::EngineConfig;

verus! {

/// A progress report. Exactly one event of a run has `finished` set: the last.
pub struct ProgressEvent {
    pub total_files: usize,
    pub processed_files: usize,
    pub current_result: Option<MoveResult>,
    pub finished: bool,
}

/// What an event says of the run: total, processed, finished.
pub type EventView = (int, int, bool);

pub open spec fn event_view(e: ProgressEvent) -> EventView {
    (e.total_files as int, e.processed_files as int, e.finished)
}

/// What the caller is asked to do next.
pub enum BatchStep {
    /// Handle the file at this index and report its result.
    Process(usize),
    /// Pause this many milliseconds, then ask again.
    Pause(u64),
    /// The run is over; this is its terminal event.
    Finished(ProgressEvent),
}

/// One run over a list of files.
pub struct BatchRunner {
    total: usize,
    processed: usize,
    batch_size: usize,
    delay_ms: u64,
    in_flight: bool,
    pause_due: bool,
    finished: bool,
    cancelled: bool,
    results: Vec<MoveResult>,
    events: Ghost<Seq<EventView>>,
}

/// Whether the events of a run are consistent: one total, `processed` never
/// falls, only the last may be terminal.
pub open spec fn events_ok(ev: Seq<EventView>, total: int) -> bool {
    &&& ev.len() >= 1
    &&& ev[0] == (total, 0int, false)
    &&& forall|i: int| 0 <= i < ev.len() ==> (#[trigger] ev[i]).0 == total
    &&& forall|i: int, j: int| 0 <= i <= j < ev.len() ==> (#[trigger] ev[i]).1 <= (#[trigger] ev[j]).1
    &&& forall|i: int| 0 <= i < ev.len() - 1 ==> !(#[trigger] ev[i]).2
}

impl BatchRunner {
    pub closed spec fn total(&self) -> nat {
        self.total as nat
    }

    pub closed spec fn processed(&self) -> nat {
        self.processed as nat
    }

    pub closed spec fn finished(&self) -> bool {
        self.finished
    }

    pub closed spec fn cancelled(&self) -> bool {
        self.cancelled
    }

    pub closed spec fn batch_size(&self) -> nat {
        self.batch_size as nat
    }

    pub closed spec fn delay_ms(&self) -> nat {
        self.delay_ms as nat
    }

    /// A batch has just been completed and the pause after it is still to come.
    pub closed spec fn pause_due(&self) -> bool {
        self.pause_due
    }

    /// A file was handed out and its result is awaited.
    pub closed spec fn awaiting(&self) -> bool {
        self.in_flight
    }

    /// The events emitted so far, in order.
    pub closed spec fn events(&self) -> Seq<EventView> {
        self.events@
    }

    /// The results recorded so far, in order.
    pub closed spec fn results_view(&self) -> Seq<(Seq<char>, bool, Seq<char>)> {
        self.results@.map_values(|r: MoveResult| result_view(r))
    }

    /// A bound on the calls of `next` and `record` still to come: three per
    /// file left (hand out, record, pause), one to finish, none once finished.
    pub closed spec fn steps_left(&self) -> nat {
        if self.finished {
            0
        } else {
            (3 * (self.total - self.processed) + (if self.in_flight {
                0int
            } else {
                1int
            }) + (if self.pause_due {
                1int
            } else {
                0int
            })) as nat
        }
    }

    pub closed spec fn wf(&self) -> bool {
        &&& self.batch_size >= 1
        &&& self.processed <= self.total
        &&& self.results@.len() == self.processed
        &&& events_ok(self.events@, self.total as int)
        &&& self.events@.last().1 == self.processed
        &&& self.events@.last().2 == self.finished
        &&& (self.finished && !self.cancelled ==> self.processed == self.total)
        &&& (self.finished ==> !self.in_flight && !self.pause_due)
        &&& (self.in_flight ==> self.processed < self.total && !self.pause_due)
    }

    /// Starts a run over `total` files; the first event reports none processed.
    pub fn start(total: usize, config: &EngineConfig) -> (r: (BatchRunner, ProgressEvent))
        requires
            config.wf(),
        ensures
            r.0.wf(),
            r.0.total() == total,
            r.0.processed() == 0,
            r.0.batch_size() == config.batch_size,
            r.0.delay_ms() == config.batch_delay_ms,
            !r.0.pause_due(),
            !r.0.finished(),
            !r.0.awaiting(),
            r.0.events() == seq![(total as int, 0int, false)],
            r.0.results_view() == Seq::<(Seq<char>, bool, Seq<char>)>::empty(),
            event_view(r.1) == (total as int, 0int, false),
            r.1.current_result is None,
    {
        let ghost first: Seq<EventView> = seq![(total as int, 0int, false)];
        let runner = BatchRunner {
            total,
            processed: 0,
            batch_size: config.batch_size,
            delay_ms: config.batch_delay_ms,
            in_flight: false,
            pause_due: false,
            finished: false,
            cancelled: false,
            results: Vec::new(),
            events: Ghost(first),
        };
        assert(runner.results_view() =~= Seq::<(Seq<char>, bool, Seq<char>)>::empty());
        let event = ProgressEvent {
            total_files: total,
            processed_files: 0,
            current_result: None,
            finished: false,
        };
        (runner, event)
    }

    /// Decides what comes next. `cancel_requested` is the cancellation signal as
    /// read now: it is honoured before any further file is handed out.
    pub fn next(&mut self, cancel_requested: bool) -> (r: BatchStep)
        requires
            old(self).wf(),
            !old(self).finished(),
            !old(self).awaiting(),
        ensures
            final(self).wf(),
            final(self).total() == old(self).total(),
            final(self).processed() == old(self).processed(),
            final(self).batch_size() == old(self).batch_size(),
            final(self).delay_ms() == old(self).delay_ms(),
            final(self).results_view() == old(self).results_view(),
            !final(self).pause_due(),
            final(self).steps_left() < old(self).steps_left(),
            (r is Pause) <==> old(self).pause_due(),
            match r {
                BatchStep::Process(i) => {
                    &&& i == old(self).processed()
                    &&& i < old(self).total()
                    &&& !cancel_requested
                    &&& final(self).awaiting()
                    &&& !final(self).finished()
                    &&& final(self).events() == old(self).events()
                },
                BatchStep::Pause(ms) => {
                    &&& ms == old(self).delay_ms()
                    &&& !final(self).awaiting()
                    &&& !final(self).finished()
                    &&& final(self).events() == old(self).events()
                },
                BatchStep::Finished(e) => {
                    &&& (old(self).processed() == old(self).total() || cancel_requested)
                    &&& final(self).finished()
                    &&& final(self).cancelled() == (old(self).processed() < old(self).total())
                    &&& event_view(e) == (old(self).total() as int, old(self).processed() as int, true)
                    &&& e.current_result is None
                    &&& final(self).events() == old(self).events().push(event_view(e))
                },
            },
            old(self).processed() < old(self).total() && !cancel_requested ==> !(r is Finished),
    {
        if self.pause_due {
            self.pause_due = false;
            return BatchStep::Pause(self.delay_ms);
        }
        if self.processed == self.total || cancel_requested {
            let e = ProgressEvent {
                total_files: self.total,
                processed_files: self.processed,
                current_result: None,
                finished: true,
            };
            self.cancelled = self.processed < self.total;
            self.finished = true;
            let ghost ev = self.events@;
            let ghost pushed = ev.push(event_view(e));
            self.events = Ghost(pushed);
            assert(events_ok(self.events@, self.total as int)) by {
                assert forall|i: int, j: int| 0 <= i <= j < self.events@.len() implies (
                #[trigger] self.events@[i]).1 <= (#[trigger] self.events@[j]).1 by {
                    if j == self.events@.len() - 1 && i < j {
                        assert(ev[i].1 <= ev[ev.len() - 1].1);
                    }
                }
            }
            return BatchStep::Finished(e);
        }
        self.in_flight = true;
        BatchStep::Process(self.processed)
    }

    /// Takes the result for the file last handed out and returns its progress event.
    pub fn record(&mut self, result: MoveResult) -> (e: ProgressEvent)
        requires
            old(self).wf(),
            old(self).awaiting(),
        ensures
            final(self).wf(),
            !final(self).awaiting(),
            !final(self).finished(),
            final(self).total() == old(self).total(),
            final(self).processed() == old(self).processed() + 1,
            final(self).batch_size() == old(self).batch_size(),
            final(self).delay_ms() == old(self).delay_ms(),
            final(self).pause_due() == (final(self).processed() % final(self).batch_size() == 0
                || final(self).processed() == final(self).total()),
            final(self).steps_left() < old(self).steps_left(),
            final(self).results_view() == old(self).results_view().push(result_view(result)),
            event_view(e) == (old(self).total() as int, (old(self).processed() + 1) as int, false),
            e.current_result matches Some(c) && result_view(c) == result_view(result),
            final(self).events() == old(self).events().push(event_view(e)),
    {
        let copy = result.duplicate();
        let ghost before = self.results@;
        self.results.push(result);
        assert(self.results_view() =~= before.map_values(|r: MoveResult| result_view(r)).push(
            result_view(result),
        ));
        self.processed = self.processed + 1;
        self.in_flight = false;
        self.pause_due = self.processed % self.batch_size == 0 || self.processed == self.total;
        let e = ProgressEvent {
            total_files: self.total,
            processed_files: self.processed,
            current_result: Some(copy),
            finished: false,
        };
        let ghost ev = self.events@;
        let ghost pushed = ev.push(event_view(e));
        self.events = Ghost(pushed);
        assert(events_ok(self.events@, self.total as int)) by {
            assert forall|i: int, j: int| 0 <= i <= j < self.events@.len() implies (
            #[trigger] self.events@[i]).1 <= (#[trigger] self.events@[j]).1 by {
                if j == self.events@.len() - 1 && i < j {
                    assert(ev[i].1 <= ev[ev.len() - 1].1);
                }
            }
        }
        e
    }

    /// Whether the run is over.
    pub fn is_finished(&self) -> (r: bool)
        ensures
            r == self.finished(),
    {
        self.finished
    }

    /// Whether the run stopped on a cancellation.
    pub fn was_cancelled(&self) -> (r: bool)
        ensures
            r == self.cancelled(),
    {
        self.cancelled
    }

    /// Files processed so far.
    pub fn processed_files(&self) -> (r: usize)
        ensures
            r == self.processed(),
    {
        self.processed
    }

    /// Files in the run.
    pub fn total_files(&self) -> (r: usize)
        ensures
            r == self.total(),
    {
        self.total
    }

    /// The results recorded so far, in order.
    pub fn results(&self) -> (r: &Vec<MoveResult>)
        ensures
            r@.map_values(|x: MoveResult| result_view(x)) == self.results_view(),
    {
        &self.results
    }
}

/// In every run, every event carries the same total, `processed_files` never falls from one event to the next, only
/// the last event can be terminal, a finished run's last event is terminal,
/// there is one result per processed file, and a run that was not cancelled
/// ends having processed every file.
pub proof fn lemma_run_events(r: &BatchRunner)
    requires
        r.wf(),
    ensures
        r.events().len() >= 1,
        r.events()[0] == (r.total() as int, 0int, false),
        forall|i: int| 0 <= i < r.events().len() ==> (#[trigger] r.events()[i]).0 == r.total(),
        forall|i: int, j: int|
            0 <= i <= j < r.events().len() ==> (#[trigger] r.events()[i]).1 <= (
            #[trigger] r.events()[j]).1,
        forall|i: int| 0 <= i < r.events().len() && (#[trigger] r.events()[i]).2 ==> i == r.events().len() - 1,
        r.finished() <==> r.events().last().2,
        r.events().last().1 == r.processed(),
        r.processed() <= r.total(),
        r.results_view().len() == r.processed(),
        r.finished() && !r.cancelled() ==> r.processed() == r.total(),
{
}

/// Every run ends: each call of `next` or `record` lowers `steps_left`, which
/// is zero exactly when the run is finished, so a run that is not finished
/// ends within `3 * (total - processed) + 2` further calls, cancelled or not.
pub proof fn lemma_run_ends(r: &BatchRunner)
    requires
        r.wf(),
    ensures
        r.steps_left() == 0 <==> r.finished(),
        r.steps_left() <= 3 * (r.total() - r.processed()) + 2,
{
}

} // verus!
