use std::cell::RefCell;
use std::rc::Rc;

use futures::executor::block_on;

use vgtk::action::UpdateAction;
use vgtk::component::Component;
use vgtk::context::{ContextFrame, ContextStack};
use vgtk::lifecycle::TaskState;
use vgtk::task::{ComponentMessage, ComponentTask, Drive, Next, PartialComponentTask, Rendered};

type Log = Rc<RefCell<Vec<String>>>;

#[derive(Clone, Debug, PartialEq)]
enum Msg {
    Increment,
    Noop,
    StartJob,
    JobDone(u32),
}

#[derive(Default)]
struct Counter {
    count: u32,
    mounted: u32,
    unmounted: u32,
    changes: u32,
}

impl Component for Counter {
    type Message = Msg;
    type Properties = u32;
    type View = u32;

    fn update(&mut self, msg: Msg) -> UpdateAction<Self> {
        match msg {
            Msg::Increment => {
                self.count += 1;
                UpdateAction::Render
            }
            Msg::Noop => UpdateAction::Nothing,
            Msg::StartJob => UpdateAction::defer(async { Msg::JobDone(7) }),
            Msg::JobDone(n) => {
                self.count = n;
                UpdateAction::Render
            }
        }
    }

    fn create(props: u32) -> Self {
        Counter { count: props, ..Default::default() }
    }

    fn change(&mut self, props: u32) -> UpdateAction<Self> {
        self.changes += 1;
        if props == self.count {
            UpdateAction::Nothing
        } else {
            self.count = props;
            UpdateAction::Render
        }
    }

    fn mounted(&mut self) {
        self.mounted += 1;
    }

    fn unmounted(&mut self) {
        self.unmounted += 1;
    }

    fn view(&self) -> u32 {
        self.count
    }
}

struct Marker {
    id: u32,
    log: Log,
    patch_ok: bool,
}

struct Host {
    log: Log,
    patch_ok: bool,
}

impl Rendered<Counter> for Marker {
    type Parent = Host;

    fn build_root(view: &u32, parent: &Host) -> Self {
        parent.log.borrow_mut().push(format!("root:{}", view));
        Marker { id: 100 + *view, log: parent.log.clone(), patch_ok: parent.patch_ok }
    }

    fn build_children(&mut self, view: &u32) {
        self.log.borrow_mut().push(format!("children:{}", view));
    }

    fn patch(&mut self, view: &u32) -> bool {
        self.log.borrow_mut().push(format!("patch:{}", view));
        self.patch_ok
    }

    fn unmount(&mut self) {
        self.log.borrow_mut().push("unmount".to_string());
    }
}

fn host() -> Host {
    Host { log: Rc::new(RefCell::new(Vec::new())), patch_ok: true }
}

fn entries(log: &Log, prefix: &str) -> Vec<String> {
    log.borrow().iter().filter(|e| e.starts_with(prefix)).cloned().collect()
}

fn update(msg: Msg) -> Next<Counter> {
    Next::Ready(ComponentMessage::Update(msg))
}

#[test]
fn two_increments_give_one_patch() {
    let h = host();
    let mut task: ComponentTask<Counter, Marker> = ComponentTask::new(0, &h);
    assert!(matches!(task.handle(update(Msg::Increment)), Drive::Proceed));
    assert!(matches!(task.handle(update(Msg::Increment)), Drive::Proceed));
    assert!(matches!(task.handle(Next::Empty), Drive::Patched(true)));
    assert_eq!(entries(&h.log, "patch"), vec!["patch:2".to_string()]);
    assert!(matches!(task.handle(Next::Empty), Drive::Suspend));
    assert_eq!(entries(&h.log, "patch").len(), 1);
}

#[test]
fn quiet_updates_never_patch() {
    let h = host();
    let mut task: ComponentTask<Counter, Marker> = ComponentTask::new(0, &h);
    for _ in 0..3 {
        assert!(matches!(task.handle(update(Msg::Noop)), Drive::Proceed));
    }
    assert!(matches!(task.handle(Next::Empty), Drive::Suspend));
    assert!(entries(&h.log, "patch").is_empty());
}

#[test]
fn deferred_result_comes_back_as_update() {
    let h = host();
    let mut task: ComponentTask<Counter, Marker> = ComponentTask::new(0, &h);
    let job = match task.handle(update(Msg::StartJob)) {
        Drive::Spawn(job) => job,
        _ => panic!("expected a job"),
    };
    assert!(matches!(task.handle(Next::Empty), Drive::Suspend));
    let msg = block_on(job);
    assert_eq!(msg, Msg::JobDone(7));
    assert!(matches!(task.handle(update(msg)), Drive::Proceed));
    assert!(matches!(task.handle(Next::Empty), Drive::Patched(true)));
    assert_eq!(task.component().count, 7);
    assert_eq!(entries(&h.log, "patch"), vec!["patch:7".to_string()]);
}

#[test]
fn unmount_tears_down_once_and_drops_the_rest() {
    let h = host();
    let mut task: ComponentTask<Counter, Marker> = ComponentTask::new(0, &h);
    assert!(matches!(task.handle(update(Msg::Increment)), Drive::Proceed));
    assert!(matches!(task.handle(Next::Ready(ComponentMessage::Unmounted)), Drive::TornDown));
    assert!(matches!(task.handle(update(Msg::Increment)), Drive::Discarded));
    assert!(matches!(task.handle(Next::Ready(ComponentMessage::Unmounted)), Drive::Discarded));
    assert!(matches!(task.handle(Next::Ready(ComponentMessage::Mounted)), Drive::Discarded));
    assert!(matches!(task.handle(Next::Empty), Drive::Discarded));
    assert_eq!(entries(&h.log, "unmount").len(), 1);
    assert!(entries(&h.log, "patch").is_empty());
    assert_eq!(task.component().unmounted, 1);
    assert_eq!(task.component().count, 1);
    assert_eq!(task.component().mounted, 0);
    assert!(task.object().is_none());
    assert!(!task.state().live);
}

#[test]
fn mounted_fires_once() {
    let h = host();
    let mut task: ComponentTask<Counter, Marker> = ComponentTask::new(0, &h);
    assert!(matches!(task.handle(Next::Ready(ComponentMessage::Mounted)), Drive::Mounted));
    assert!(matches!(task.handle(Next::Ready(ComponentMessage::Mounted)), Drive::Proceed));
    assert!(matches!(task.handle(Next::Ready(ComponentMessage::Mounted)), Drive::Proceed));
    assert!(matches!(task.handle(Next::Empty), Drive::Suspend));
    assert_eq!(task.component().mounted, 1);
}

#[test]
fn job_finishing_after_unmount_is_dropped() {
    let h = host();
    let mut task: ComponentTask<Counter, Marker> = ComponentTask::new(0, &h);
    let job = match task.handle(update(Msg::StartJob)) {
        Drive::Spawn(job) => job,
        _ => panic!("expected a job"),
    };
    assert!(matches!(task.handle(Next::Ready(ComponentMessage::Unmounted)), Drive::TornDown));
    let msg = block_on(job);
    assert!(matches!(task.handle(update(msg)), Drive::Discarded));
    assert!(!task.state().live);
    assert_eq!(task.component().count, 0);
}

#[test]
fn two_phase_construction_exposes_the_root_first() {
    let h = host();
    let partial: PartialComponentTask<Counter, Marker> = PartialComponentTask::new(5, &h);
    assert_eq!(*h.log.borrow(), vec!["root:5".to_string()]);
    let mut stack: ContextStack<u32, u32> = ContextStack::new();
    assert_eq!(stack.current_object(), None);
    stack.enter(ContextFrame { parent_scope: None, object: Some(partial.object().id) });
    assert_eq!(stack.current_object(), Some(&105));
    assert_eq!(stack.current_parent_scope(), None);
    assert!(stack.leave().is_some());
    let task = partial.finalise();
    assert_eq!(*h.log.borrow(), vec!["root:5".to_string(), "children:5".to_string()]);
    assert_eq!(task.object().map(|m| m.id), Some(105));
    assert_eq!(task.state(), TaskState::new(true));
}

#[test]
fn props_go_through_change() {
    let h = host();
    let mut task: ComponentTask<Counter, Marker> = ComponentTask::new(3, &h);
    assert!(matches!(task.handle(Next::Ready(ComponentMessage::Props(3))), Drive::Proceed));
    assert!(matches!(task.handle(Next::Empty), Drive::Suspend));
    assert!(matches!(task.handle(Next::Ready(ComponentMessage::Props(9))), Drive::Proceed));
    assert!(matches!(task.handle(Next::Empty), Drive::Patched(true)));
    assert_eq!(task.component().changes, 2);
    assert_eq!(entries(&h.log, "patch"), vec!["patch:9".to_string()]);
}

#[test]
fn closed_stream_concludes_without_render() {
    let h = host();
    let mut task: ComponentTask<Counter, Marker> = ComponentTask::new(0, &h);
    assert!(matches!(task.handle(update(Msg::Increment)), Drive::Proceed));
    assert!(matches!(task.handle(Next::Closed), Drive::Concluded));
    assert!(matches!(task.handle(Next::Empty), Drive::Discarded));
    assert!(entries(&h.log, "patch").is_empty());
    assert!(entries(&h.log, "unmount").is_empty());
}

#[test]
fn failed_patch_is_reported() {
    let h = Host { log: Rc::new(RefCell::new(Vec::new())), patch_ok: false };
    let mut task: ComponentTask<Counter, Marker> = ComponentTask::new(0, &h);
    assert!(matches!(task.handle(update(Msg::Increment)), Drive::Proceed));
    assert!(matches!(task.handle(Next::Empty), Drive::Patched(false)));
}

#[test]
fn defer_and_into_box_the_job() {
    let a: UpdateAction<Counter> = UpdateAction::defer(async { Msg::JobDone(3) });
    match a {
        UpdateAction::Defer(job) => assert_eq!(block_on(job), Msg::JobDone(3)),
        _ => panic!("expected a deferred action"),
    }
    let b: UpdateAction<Counter> = (async { Msg::Noop }).into();
    match b {
        UpdateAction::Defer(job) => assert_eq!(block_on(job), Msg::Noop),
        _ => panic!("expected a deferred action"),
    }
}

#[test]
fn message_clone_keeps_the_variant() {
    let m: ComponentMessage<Counter> = ComponentMessage::Update(Msg::Increment);
    assert!(matches!(m.clone(), ComponentMessage::Update(Msg::Increment)));
    let p: ComponentMessage<Counter> = ComponentMessage::Props(4);
    assert!(matches!(p.clone(), ComponentMessage::Props(4)));
    let u: ComponentMessage<Counter> = ComponentMessage::Unmounted;
    assert!(matches!(u.clone(), ComponentMessage::Unmounted));
}

#[test]
fn will_patch_only_when_a_render_is_due() {
    let h = host();
    let mut task: ComponentTask<Counter, Marker> = ComponentTask::new(0, &h);
    assert!(!task.will_patch(&Next::Empty));
    assert!(matches!(task.handle(update(Msg::Increment)), Drive::Proceed));
    assert!(task.will_patch(&Next::Empty));
    assert!(!task.will_patch(&update(Msg::Noop)));
    assert!(!task.will_patch(&Next::Closed));
    assert!(matches!(task.handle(Next::Empty), Drive::Patched(true)));
    assert!(!task.will_patch(&Next::Empty));
}
