use vstd::prelude::*;

verus! {

/// What a component's transition (`update` or `change`) asked for.
#[derive(Clone, Copy, Debug, PartialEq, Eq, Structural)]
pub enum Outcome {
    Nothing,
    Render,
    Defer,
}

/// One observation of the task's merged message stream during a drive call.
#[derive(Clone, Copy, Debug, PartialEq, Eq, Structural)]
pub enum Event {
    /// A user message or a property update arrived, and the component's
    /// transition on it returned the given outcome.
    Transition(Outcome),
    /// The component became visible.
    Mounted,
    /// The component is being removed.
    Unmounted,
    /// No envelope is available right now.
    Empty,
    /// Every sender of the stream is gone and nothing is buffered.
    Closed,
}

/// What the driver has to do after an event.
#[derive(Clone, Copy, Debug, PartialEq, Eq, Structural)]
pub enum Decision {
    /// Keep draining the stream.
    Proceed,
    /// Spawn the deferred job, then keep draining.
    Spawn,
    /// Fire the `mounted` hook, then keep draining.
    FireMounted,
    /// Release the rendered objects, fire the `unmounted` hook; the task is over.
    TearDown,
    /// Derive one view, patch the rendered objects with it, then suspend.
    Patch,
    /// Yield to the scheduler; the task goes on later.
    Suspend,
    /// The task is over without a teardown.
    Conclude,
    /// The task is already over: the envelope is dropped unprocessed.
    Discard,
}

/// The control state of a component task.
#[derive(Clone, Copy, Debug, PartialEq, Eq, Structural)]
pub struct TaskState {
    /// The task still processes envelopes.
    pub live: bool,
    /// The task owns a rendered object.
    pub rendered: bool,
    /// A transition of the current drive call asked for a render.
    pub render_pending: bool,
    /// The `mounted` hook has fired.
    pub mounted: bool,
}

/// The state of a task that was just built, with or without a rendered object.
pub open spec fn fresh(rendered: bool) -> TaskState {
    TaskState { live: true, rendered, render_pending: false, mounted: false }
}

/// The state and decision that follow `s` on event `e`.
pub open spec fn step_spec(s: TaskState, e: Event) -> (TaskState, Decision) {
    if !s.live {
        (s, Decision::Discard)
    } else {
        match e {
            Event::Transition(Outcome::Nothing) => (s, Decision::Proceed),
            Event::Transition(Outcome::Render) => (TaskState { render_pending: true, ..s }, Decision::Proceed),
            Event::Transition(Outcome::Defer) => (s, Decision::Spawn),
            Event::Mounted => if s.mounted {
                (s, Decision::Proceed)
            } else {
                (TaskState { mounted: true, ..s }, Decision::FireMounted)
            },
            Event::Unmounted => (
                TaskState { live: false, rendered: false, render_pending: false, ..s },
                Decision::TearDown,
            ),
            Event::Empty => if !s.render_pending {
                (s, Decision::Suspend)
            } else if s.rendered {
                (TaskState { render_pending: false, ..s }, Decision::Patch)
            } else {
                (TaskState { live: false, render_pending: false, ..s }, Decision::Conclude)
            },
            Event::Closed => (TaskState { live: false, render_pending: false, ..s }, Decision::Conclude),
        }
    }
}

/// The final state and the decisions of a run of events from `s`.
pub open spec fn run(s: TaskState, evs: Seq<Event>) -> (TaskState, Seq<Decision>)
    decreases evs.len(),
{
    if evs.len() == 0 {
        (s, Seq::<Decision>::empty())
    } else {
        let (s1, d) = step_spec(s, evs[0]);
        let (s2, ds) = run(s1, evs.drop_first());
        (s2, seq![d] + ds)
    }
}

/// How many times `d` occurs in `ds`.
pub open spec fn count(ds: Seq<Decision>, d: Decision) -> nat
    decreases ds.len(),
{
    if ds.len() == 0 {
        0
    } else {
        (if ds[0] == d { 1nat } else { 0nat }) + count(ds.drop_first(), d)
    }
}

/// An envelope that does not end the task and does not ask to suspend.
pub open spec fn is_envelope_kept(e: Event) -> bool {
    e is Transition || e is Mounted
}

impl TaskState {
    /// The state of a task that was just built, with or without a rendered
    /// object.
    pub fn new(rendered: bool) -> (r: Self)
        ensures
            r == fresh(rendered),
    {
        TaskState { live: true, rendered, render_pending: false, mounted: false }
    }

    /// Takes one event and says what the driver has to do.
    pub fn step(&mut self, e: Event) -> (d: Decision)
        ensures
            (*final(self), d) == step_spec(*old(self), e),
    {
        if !self.live {
            return Decision::Discard;
        }
        match e {
            Event::Transition(Outcome::Nothing) => Decision::Proceed,
            Event::Transition(Outcome::Render) => {
                self.render_pending = true;
                Decision::Proceed
            },
            Event::Transition(Outcome::Defer) => Decision::Spawn,
            Event::Mounted => {
                if self.mounted {
                    Decision::Proceed
                } else {
                    self.mounted = true;
                    Decision::FireMounted
                }
            },
            Event::Unmounted => {
                self.live = false;
                self.rendered = false;
                self.render_pending = false;
                Decision::TearDown
            },
            Event::Empty => {
                if !self.render_pending {
                    Decision::Suspend
                } else if self.rendered {
                    self.render_pending = false;
                    Decision::Patch
                } else {
                    self.live = false;
                    self.render_pending = false;
                    Decision::Conclude
                }
            },
            Event::Closed => {
                self.live = false;
                self.render_pending = false;
                Decision::Conclude
            },
        }
    }
}

} // verus!
