use egui_files::attempt::Attempt;

#[derive(Clone, Copy, Debug, PartialEq, Eq)]
enum Act {
    A,
    B,
}

#[test]
fn allow_if_blocks_then_allows() {
    let mut guard: Attempt<Act> = Attempt::default();

    // A failed condition blocks the action and parks it.
    assert_eq!(guard.allow_if(false, Act::A), false);
    assert!(guard.is_attempting());
    assert_eq!(*guard.action(), Some(Act::A));

    // A later attempt whose condition holds runs and resets the guard.
    assert_eq!(guard.allow_if(true, Act::B), true);
    assert!(!guard.is_attempting());
    assert_eq!(*guard.action(), None);
}

#[test]
fn allow_if_after_override_always_passes() {
    let mut guard: Attempt<Act> = Attempt::default();
    assert_eq!(guard.allow_if(false, Act::A), false);

    // The user confirmed "discard changes": the next attempt passes whatever
    // its condition, and the guard resets.
    guard.override_condition();
    assert_eq!(guard.allow_if(false, Act::B), true);
    assert_eq!(*guard.action(), None);

    // The override was consumed by the reset.
    assert_eq!(guard.allow_if(false, Act::A), false);
}

#[test]
fn reentrant_attempt_overwrites_pending_action() {
    let mut guard: Attempt<Act> = Attempt::default();
    assert_eq!(guard.allow_if(false, Act::A), false);
    assert_eq!(*guard.action(), Some(Act::A));

    // Last attempt wins; actions are never queued.
    assert_eq!(guard.allow_if(false, Act::B), false);
    assert_eq!(*guard.action(), Some(Act::B));
}

#[test]
fn check_condition_and_reset() {
    let mut guard: Attempt<Act> = Attempt::default();
    assert_eq!(guard.check_condition(true), true);
    assert_eq!(guard.check_condition(false), false);
    guard.override_condition();
    assert_eq!(guard.check_condition(false), true);
    guard.set_action(Act::A);
    assert!(guard.is_attempting());
    guard.reset_attempt();
    assert!(!guard.is_attempting());
    assert_eq!(guard.check_condition(false), false);
}
