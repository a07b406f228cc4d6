use shiwakekun::mover::{MoveAction, MoveStep, MoveStrategy, OpError};
use shiwakekun::outcome::FileFailure;
use shiwakekun::settings::EngineConfig;

fn ok() -> Result<(), OpError> {
    Ok(())
}

fn err(denied: bool, message: &str) -> Result<(), OpError> {
    Err(OpError { permission_denied: denied, message: message.to_string() })
}

/// Runs a move, answering each action from `answers` in turn; returns the
/// actions asked for.
fn drive(mv: &mut MoveStrategy, answers: Vec<Result<(), OpError>>) -> Vec<MoveAction> {
    let mut seen = Vec::new();
    for a in answers {
        let action = mv.action();
        assert_ne!(action, MoveAction::Stop);
        seen.push(action);
        mv.record(a);
    }
    seen
}

#[test]
fn move_by_async_copy_and_remove() {
    let mut mv = MoveStrategy::new(&EngineConfig::standard(), false);
    let seen = drive(&mut mv, vec![ok(), ok()]);
    assert_eq!(seen, vec![MoveAction::AsyncCopy, MoveAction::AsyncRemove]);
    assert_eq!(mv.action(), MoveAction::Stop);
    assert!(mv.is_finished());
    assert!(mv.failure().is_none());
}

#[test]
fn move_read_only_source_across_filesystems() {
    let mut mv = MoveStrategy::new(&EngineConfig::standard(), false);
    let seen = drive(
        &mut mv,
        vec![ok(), err(true, "Permission denied"), ok(), ok()],
    );
    assert_eq!(
        seen,
        vec![
            MoveAction::AsyncCopy,
            MoveAction::AsyncRemove,
            MoveAction::RelaxPermissions,
            MoveAction::AsyncRemove
        ]
    );
    assert!(!seen.contains(&MoveAction::Rename));
    assert_eq!(mv.step, MoveStep::Moved);
    assert!(mv.failure().is_none());
}

#[test]
fn move_falls_back_to_rename() {
    let mut mv = MoveStrategy::new(&EngineConfig::standard(), false);
    let seen = drive(&mut mv, vec![err(false, "no async"), ok()]);
    assert_eq!(seen, vec![MoveAction::AsyncCopy, MoveAction::Rename]);
    assert_eq!(mv.step, MoveStep::Moved);
}

#[test]
fn move_forces_on_permission_denied_when_available() {
    let mut mv = MoveStrategy::new(&EngineConfig::standard(), true);
    let seen = drive(
        &mut mv,
        vec![err(false, "a"), err(false, "b"), ok(), err(true, "denied"), ok()],
    );
    assert_eq!(
        seen,
        vec![
            MoveAction::AsyncCopy,
            MoveAction::Rename,
            MoveAction::Copy,
            MoveAction::Remove,
            MoveAction::ForceMove
        ]
    );
    assert_eq!(mv.step, MoveStep::Moved);
}

#[test]
fn move_without_force_starts_next_round() {
    let mut mv = MoveStrategy::new(&EngineConfig::standard(), false);
    drive(&mut mv, vec![err(false, "a"), err(false, "b"), ok(), err(true, "denied")]);
    assert_eq!(mv.step, MoveStep::Backoff);
    assert_eq!(mv.round, 1);
    assert_eq!(mv.action(), MoveAction::Wait(100));
}

#[test]
fn move_gives_up_after_three_rounds() {
    let mut mv = MoveStrategy::new(&EngineConfig::standard(), false);
    let mut waits = Vec::new();
    let mut steps = 0;
    while !mv.is_finished() {
        steps += 1;
        match mv.action() {
            MoveAction::Wait(ms) => {
                waits.push(ms);
                mv.record(ok());
            }
            _ => mv.record(err(false, "disk unavailable")),
        }
    }
    assert_eq!(waits, vec![100, 200]);
    assert_eq!(mv.round, 2);
    assert!(steps <= 30);
    match mv.failure() {
        Some(FileFailure::CopyFailed(m)) => assert_eq!(m, "disk unavailable"),
        _ => panic!("expected a copy failure"),
    }
}

#[test]
fn move_with_copy_but_no_removal_is_orphaned() {
    let cfg = EngineConfig { batch_size: 10, batch_delay_ms: 0, max_retries: 1, retry_backoff_ms: 0 };
    let mut mv = MoveStrategy::new(&cfg, false);
    drive(
        &mut mv,
        vec![ok(), err(true, "x"), err(false, "y"), err(true, "z"), err(false, "r"), ok(), err(true, "busy")],
    );
    assert_eq!(mv.step, MoveStep::GaveUp);
    match mv.failure() {
        Some(FileFailure::OrphanedCopy(m)) => assert_eq!(m, "busy"),
        _ => panic!("expected an orphaned copy"),
    }
}
