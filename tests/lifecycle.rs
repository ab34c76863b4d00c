use vgtk::context::{ContextFrame, ContextStack};
use vgtk::lifecycle::{Decision, Event, Outcome, TaskState};

fn run(s: &mut TaskState, evs: &[Event]) -> Vec<Decision> {
    evs.iter().map(|e| s.step(*e)).collect()
}

#[test]
fn renders_are_coalesced() {
    let mut s = TaskState::new(true);
    let ds = run(
        &mut s,
        &[
            Event::Transition(Outcome::Render),
            Event::Transition(Outcome::Nothing),
            Event::Transition(Outcome::Render),
            Event::Empty,
        ],
    );
    assert_eq!(ds, vec![Decision::Proceed, Decision::Proceed, Decision::Proceed, Decision::Patch]);
    assert!(s.live && !s.render_pending);
}

#[test]
fn defer_spawns() {
    let mut s = TaskState::new(true);
    assert_eq!(s.step(Event::Transition(Outcome::Defer)), Decision::Spawn);
    assert_eq!(s, TaskState::new(true));
}

#[test]
fn render_without_object_concludes() {
    let mut s = TaskState::new(false);
    assert_eq!(s.step(Event::Transition(Outcome::Render)), Decision::Proceed);
    assert_eq!(s.step(Event::Empty), Decision::Conclude);
    assert!(!s.live);
    assert_eq!(s.step(Event::Transition(Outcome::Render)), Decision::Discard);
}

#[test]
fn unmounted_is_terminal() {
    let mut s = TaskState::new(true);
    let ds = run(
        &mut s,
        &[Event::Mounted, Event::Unmounted, Event::Mounted, Event::Transition(Outcome::Render), Event::Empty, Event::Closed],
    );
    assert_eq!(
        ds,
        vec![
            Decision::FireMounted,
            Decision::TearDown,
            Decision::Discard,
            Decision::Discard,
            Decision::Discard,
            Decision::Discard
        ]
    );
    assert_eq!(s, TaskState { live: false, rendered: false, render_pending: false, mounted: true });
}

#[test]
fn second_mounted_is_ignored() {
    let mut s = TaskState::new(true);
    let ds = run(&mut s, &[Event::Mounted, Event::Mounted, Event::Empty]);
    assert_eq!(ds, vec![Decision::FireMounted, Decision::Proceed, Decision::Suspend]);
}

#[test]
fn closed_stream_ends_the_task() {
    let mut s = TaskState::new(true);
    assert_eq!(s.step(Event::Closed), Decision::Conclude);
    assert!(!s.live);
    assert!(s.rendered);
}

#[test]
fn context_stack_follows_the_innermost_frame() {
    let mut stack: ContextStack<&str, u32> = ContextStack::new();
    assert_eq!(stack.depth(), 0);
    assert_eq!(stack.current_parent_scope(), None);
    assert!(stack.leave().is_none());
    stack.enter(ContextFrame { parent_scope: None, object: Some(1) });
    stack.enter(ContextFrame { parent_scope: Some("parent"), object: None });
    assert_eq!(stack.depth(), 2);
    assert_eq!(stack.current_parent_scope(), Some(&"parent"));
    assert_eq!(stack.current_object(), None);
    let top = stack.leave().unwrap();
    assert_eq!(top.parent_scope, Some("parent"));
    assert_eq!(stack.current_object(), Some(&1));
    assert_eq!(stack.current_parent_scope(), None);
    stack.leave();
    assert_eq!(stack.current_object(), None);
}
