//! The decisions of one file move: which operation to try next, when to wait,
//! and when to give up. The caller performs each operation and reports back.
use vstd::prelude::*;
use crate::outcome::FileFailure;
use crate::settings::EngineConfig;

verus! {

/// Where a move stands in its fallback chain.
#[derive(PartialEq, Eq, Structural, Clone, Copy, Debug)]
pub enum MoveStep {
    /// Copy through the asynchronous file system layer.
    AsyncCopy,
    /// Remove the source after that copy.
    AsyncRemove,
    /// Give the owner read and write permission on the source.
    RelaxPermissions,
    /// Remove the source once more, after relaxing its permissions.
    RetryRemove,
    /// Rename the source to the destination.
    Rename,
    /// Copy with a blocking call.
    Copy,
    /// Remove the source after the blocking copy.
    Remove,
    /// Move with the platform's forced-move command.
    ForceMove,
    /// Wait before the next round of the chain.
    Backoff,
    /// The file was moved.
    Moved,
    /// Every round failed.
    GaveUp,
}

/// What the caller is asked to do next.
#[derive(PartialEq, Eq, Structural, Clone, Copy, Debug)]
pub enum MoveAction {
    AsyncCopy,
    AsyncRemove,
    RelaxPermissions,
    Rename,
    Copy,
    Remove,
    ForceMove,
    /// Sleep this many milliseconds, then report success.
    Wait(u64),
    /// Nothing more: the move is over.
    Stop,
}

/// A failed operation.
pub struct OpError {
    /// The system refused for lack of permission.
    pub permission_denied: bool,
    pub message: String,
}

/// One file move in progress.
pub struct MoveStrategy {
    pub step: MoveStep,
    /// The round of the fallback chain, from 0.
    pub round: u64,
    pub max_rounds: u64,
    pub backoff_unit_ms: u64,
    pub force_move_available: bool,
    /// Some copy has reached the destination.
    pub copied: bool,
    /// The message of the last failed operation.
    pub last_error: String,
}

pub open spec fn is_removal(step: MoveStep) -> bool {
    step == MoveStep::AsyncRemove || step == MoveStep::RelaxPermissions || step == MoveStep::RetryRemove
        || step == MoveStep::Remove
}

pub open spec fn is_copy(step: MoveStep) -> bool {
    step == MoveStep::AsyncCopy || step == MoveStep::Copy
}

pub open spec fn is_over(step: MoveStep) -> bool {
    step == MoveStep::Moved || step == MoveStep::GaveUp
}

/// Where a round that failed throughout leads.
pub open spec fn round_end(s: MoveStrategy) -> MoveStep {
    if s.round + 1 < s.max_rounds {
        MoveStep::Backoff
    } else {
        MoveStep::GaveUp
    }
}

/// The fallback chain: the step after `s.step`, given whether the operation
/// succeeded and, if not, whether permission was denied.
pub open spec fn next_step(s: MoveStrategy, ok: bool, denied: bool) -> MoveStep {
    match s.step {
        MoveStep::AsyncCopy => if ok { MoveStep::AsyncRemove } else { MoveStep::Rename },
        MoveStep::AsyncRemove => if ok { MoveStep::Moved } else { MoveStep::RelaxPermissions },
        MoveStep::RelaxPermissions => MoveStep::RetryRemove,
        MoveStep::RetryRemove => if ok { MoveStep::Moved } else { MoveStep::Rename },
        MoveStep::Rename => if ok { MoveStep::Moved } else { MoveStep::Copy },
        MoveStep::Copy => if ok { MoveStep::Remove } else { round_end(s) },
        MoveStep::Remove => if ok {
            MoveStep::Moved
        } else if denied && s.force_move_available {
            MoveStep::ForceMove
        } else {
            round_end(s)
        },
        MoveStep::ForceMove => if ok { MoveStep::Moved } else { round_end(s) },
        MoveStep::Backoff => MoveStep::AsyncCopy,
        MoveStep::Moved => MoveStep::Moved,
        MoveStep::GaveUp => MoveStep::GaveUp,
    }
}

/// The action that a step asks for.
pub open spec fn action_of(s: MoveStrategy) -> MoveAction {
    match s.step {
        MoveStep::AsyncCopy => MoveAction::AsyncCopy,
        MoveStep::AsyncRemove => MoveAction::AsyncRemove,
        MoveStep::RelaxPermissions => MoveAction::RelaxPermissions,
        MoveStep::RetryRemove => MoveAction::AsyncRemove,
        MoveStep::Rename => MoveAction::Rename,
        MoveStep::Copy => MoveAction::Copy,
        MoveStep::Remove => MoveAction::Remove,
        MoveStep::ForceMove => MoveAction::ForceMove,
        MoveStep::Backoff => MoveAction::Wait((s.round * s.backoff_unit_ms) as u64),
        MoveStep::Moved => MoveAction::Stop,
        MoveStep::GaveUp => MoveAction::Stop,
    }
}

/// Position of a step in its round, counted down to the end of the round.
pub open spec fn step_rank(step: MoveStep) -> nat {
    match step {
        MoveStep::Backoff => 9,
        MoveStep::AsyncCopy => 8,
        MoveStep::AsyncRemove => 7,
        MoveStep::RelaxPermissions => 6,
        MoveStep::RetryRemove => 5,
        MoveStep::Rename => 4,
        MoveStep::Copy => 3,
        MoveStep::Remove => 2,
        MoveStep::ForceMove => 1,
        MoveStep::Moved => 0,
        MoveStep::GaveUp => 0,
    }
}

/// An upper bound on the operations still to come.
pub open spec fn work_left(s: MoveStrategy) -> nat {
    if is_over(s.step) {
        0
    } else {
        ((s.max_rounds - s.round - 1) * 10 + step_rank(s.step)) as nat
    }
}

pub open spec fn op_ok(result: Result<(), OpError>) -> bool {
    result is Ok
}

pub open spec fn op_denied(result: Result<(), OpError>) -> bool {
    match result {
        Ok(_) => false,
        Err(e) => e.permission_denied,
    }
}

/// The failure that a move that gave up reports.
pub open spec fn give_up_failure(s: MoveStrategy) -> FileFailure {
    if s.copied {
        FileFailure::OrphanedCopy(s.last_error)
    } else {
        FileFailure::CopyFailed(s.last_error)
    }
}

impl MoveStrategy {
    pub open spec fn wf(&self) -> bool {
        &&& self.max_rounds >= 1
        &&& self.round < self.max_rounds
        &&& self.max_rounds * self.backoff_unit_ms <= u64::MAX
        &&& (self.step == MoveStep::Backoff ==> self.round >= 1)
    }

    /// A move that starts with the asynchronous copy in round 0.
    pub fn new(config: &EngineConfig, force_move_available: bool) -> (r: MoveStrategy)
        requires
            config.wf(),
        ensures
            r.wf(),
            r.step == MoveStep::AsyncCopy,
            r.round == 0,
            r.max_rounds == config.max_retries,
            r.backoff_unit_ms == config.retry_backoff_ms,
            r.force_move_available == force_move_available,
            !r.copied,
            r.last_error@ == Seq::<char>::empty(),
    {
        MoveStrategy {
            step: MoveStep::AsyncCopy,
            round: 0,
            max_rounds: config.max_retries,
            backoff_unit_ms: config.retry_backoff_ms,
            force_move_available,
            copied: false,
            last_error: String::new(),
        }
    }

    /// The operation to perform now.
    pub fn action(&self) -> (r: MoveAction)
        requires
            self.wf(),
        ensures
            r == action_of(*self),
    {
        match self.step {
            MoveStep::AsyncCopy => MoveAction::AsyncCopy,
            MoveStep::AsyncRemove => MoveAction::AsyncRemove,
            MoveStep::RelaxPermissions => MoveAction::RelaxPermissions,
            MoveStep::RetryRemove => MoveAction::AsyncRemove,
            MoveStep::Rename => MoveAction::Rename,
            MoveStep::Copy => MoveAction::Copy,
            MoveStep::Remove => MoveAction::Remove,
            MoveStep::ForceMove => MoveAction::ForceMove,
            MoveStep::Backoff => {
                proof {
                    assert(self.round * self.backoff_unit_ms <= self.max_rounds * self.backoff_unit_ms)
                        by (nonlinear_arith)
                        requires
                            self.round < self.max_rounds,
                    ;
                }
                MoveAction::Wait(self.round * self.backoff_unit_ms)
            },
            MoveStep::Moved => MoveAction::Stop,
            MoveStep::GaveUp => MoveAction::Stop,
        }
    }

    /// Whether the move is over.
    pub fn is_finished(&self) -> (r: bool)
        ensures
            r == is_over(self.step),
    {
        self.step == MoveStep::Moved || self.step == MoveStep::GaveUp
    }

    /// Takes the result of the action last asked for.
    pub fn record(&mut self, result: Result<(), OpError>)
        requires
            old(self).wf(),
            !is_over(old(self).step),
        ensures
            final(self).wf(),
            final(self).step == next_step(*old(self), op_ok(result), op_denied(result)),
            final(self).round == if final(self).step == MoveStep::Backoff && old(self).step
                != MoveStep::Backoff {
                old(self).round + 1
            } else {
                old(self).round as int
            },
            final(self).max_rounds == old(self).max_rounds,
            final(self).backoff_unit_ms == old(self).backoff_unit_ms,
            final(self).force_move_available == old(self).force_move_available,
            final(self).copied == (old(self).copied || (is_copy(old(self).step) && op_ok(result))),
            final(self).last_error@ == match result {
                Ok(_) => old(self).last_error@,
                Err(e) => e.message@,
            },
    {
        let ok = result.is_ok();
        let denied = match &result {
            Ok(_) => false,
            Err(e) => e.permission_denied,
        };
        let last_round = self.round + 1 >= self.max_rounds;
        let end = if last_round {
            MoveStep::GaveUp
        } else {
            MoveStep::Backoff
        };
        let next = match self.step {
            MoveStep::AsyncCopy => if ok { MoveStep::AsyncRemove } else { MoveStep::Rename },
            MoveStep::AsyncRemove => if ok { MoveStep::Moved } else { MoveStep::RelaxPermissions },
            MoveStep::RelaxPermissions => MoveStep::RetryRemove,
            MoveStep::RetryRemove => if ok { MoveStep::Moved } else { MoveStep::Rename },
            MoveStep::Rename => if ok { MoveStep::Moved } else { MoveStep::Copy },
            MoveStep::Copy => if ok { MoveStep::Remove } else { end },
            MoveStep::Remove => if ok {
                MoveStep::Moved
            } else if denied && self.force_move_available {
                MoveStep::ForceMove
            } else {
                end
            },
            MoveStep::ForceMove => if ok { MoveStep::Moved } else { end },
            MoveStep::Backoff => MoveStep::AsyncCopy,
            MoveStep::Moved => MoveStep::Moved,
            MoveStep::GaveUp => MoveStep::GaveUp,
        };
        if ok && (self.step == MoveStep::AsyncCopy || self.step == MoveStep::Copy) {
            self.copied = true;
        }
        if next == MoveStep::Backoff && self.step != MoveStep::Backoff {
            self.round = self.round + 1;
        }
        self.step = next;
        match result {
            Ok(_) => {},
            Err(e) => {
                self.last_error = e.message;
            },
        }
    }

    /// How the move ended: `None` when it moved the file.
    pub fn failure(&self) -> (r: Option<FileFailure>)
        requires
            is_over(self.step),
        ensures
            self.step == MoveStep::Moved ==> r is None,
            self.step == MoveStep::GaveUp ==> r == Some(give_up_failure(*self)),
    {
        if self.step == MoveStep::Moved {
            None
        } else if self.copied {
            Some(FileFailure::OrphanedCopy(self.last_error.clone()))
        } else {
            Some(FileFailure::CopyFailed(self.last_error.clone()))
        }
    }
}

/// A move ends as moved only on a success of an operation that takes the file
/// away from its source: a removal after a copy, a rename or a forced move.
pub proof fn lemma_moved_only_by_relocation(s: MoveStrategy, ok: bool, denied: bool)
    requires
        !is_over(s.step),
        next_step(s, ok, denied) == MoveStep::Moved,
    ensures
        ok,
        s.step == MoveStep::AsyncRemove || s.step == MoveStep::RetryRemove || s.step
            == MoveStep::Rename || s.step == MoveStep::Remove || s.step == MoveStep::ForceMove,
{
}

/// The source is removed only right after a copy to the destination succeeded,
/// or on the way through the removals that follow that copy.
pub proof fn lemma_removal_follows_copy(s: MoveStrategy, ok: bool, denied: bool)
    requires
        is_removal(next_step(s, ok, denied)),
    ensures
        (is_copy(s.step) && ok) || (is_removal(s.step) && !ok) || s.step
            == MoveStep::RelaxPermissions,
{
}

/// Each operation brings a move closer to its end, so a move performs at most
/// `10 * max_rounds` operations.
pub proof fn lemma_move_progress(s: MoveStrategy, ok: bool, denied: bool)
    requires
        s.wf(),
        !is_over(s.step),
    ensures
        ({
            let n = next_step(s, ok, denied);
            let r = if n == MoveStep::Backoff && s.step != MoveStep::Backoff {
                s.round + 1
            } else {
                s.round as int
            };
            let t = MoveStrategy { step: n, round: r as u64, ..s };
            work_left(t) < work_left(s)
        }),
        work_left(s) < 10 * s.max_rounds,
{
}

} // verus!
