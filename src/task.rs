use vstd::prelude::*;

use crate::action::{outcome_of, Job, UpdateAction};
use crate::component::Component;
use crate::lifecycle::{fresh, step_spec, Decision, Event, Outcome, TaskState};

verus! {

/// One envelope of a component's message stream.
pub enum ComponentMessage<C: Component> {
    /// A user message, for `update`.
    Update(C::Message),
    /// New properties from the parent, for `change`.
    Props(C::Properties),
    /// The component became visible.
    Mounted,
    /// The component is being removed.
    Unmounted,
}

impl<C: Component> Clone for ComponentMessage<C> {
    fn clone(&self) -> (r: Self)
        ensures
            r is Update <==> self is Update,
            r is Props <==> self is Props,
            r is Mounted <==> self is Mounted,
            r is Unmounted <==> self is Unmounted,
            self is Update ==> cloned(self->Update_0, r->Update_0),
            self is Props ==> cloned(self->Props_0, r->Props_0),
    {
        match self {
            ComponentMessage::Update(msg) => ComponentMessage::Update(msg.clone()),
            ComponentMessage::Props(props) => ComponentMessage::Props(props.clone()),
            ComponentMessage::Mounted => ComponentMessage::Mounted,
            ComponentMessage::Unmounted => ComponentMessage::Unmounted,
        }
    }
}

/// What polling the merged message stream gave.
pub enum Next<C: Component> {
    /// An envelope was available.
    Ready(ComponentMessage<C>),
    /// Nothing is available right now.
    Empty,
    /// Every sender is gone and nothing is buffered.
    Closed,
}

/// The event that the task sees when polling gave `next`, given the outcome
/// of the component's transition where one runs.
pub open spec fn event_of<C: Component>(next: Next<C>, o: Outcome) -> Event {
    match next {
        Next::Ready(ComponentMessage::Update(_)) => Event::Transition(o),
        Next::Ready(ComponentMessage::Props(_)) => Event::Transition(o),
        Next::Ready(ComponentMessage::Mounted) => Event::Mounted,
        Next::Ready(ComponentMessage::Unmounted) => Event::Unmounted,
        Next::Empty => Event::Empty,
        Next::Closed => Event::Closed,
    }
}

/// What the driver has to do after one envelope was handled.
pub enum Drive<C: Component> {
    /// Keep polling.
    Proceed,
    /// Spawn the job so that its message comes back through the task's own
    /// scope, then keep polling.
    Spawn(Job<C::Message>),
    /// The `mounted` hook fired; keep polling.
    Mounted,
    /// The rendered objects were released and the `unmounted` hook fired;
    /// the task is over.
    TornDown,
    /// The view was derived once and handed to the rendered objects, which
    /// reported whether the patch applied; suspend.
    Patched(bool),
    /// Suspend until more envelopes arrive.
    Suspend,
    /// The task is over without a teardown.
    Concluded,
    /// The task was already over; the envelope was dropped.
    Discarded,
}

/// The decision that a drive result carries out.
pub open spec fn decision_of<C: Component>(r: Drive<C>) -> Decision {
    match r {
        Drive::Proceed => Decision::Proceed,
        Drive::Spawn(_) => Decision::Spawn,
        Drive::Mounted => Decision::FireMounted,
        Drive::TornDown => Decision::TearDown,
        Drive::Patched(_) => Decision::Patch,
        Drive::Suspend => Decision::Suspend,
        Drive::Concluded => Decision::Conclude,
        Drive::Discarded => Decision::Discard,
    }
}

/// The live rendered objects of a component: built from a view, patched
/// with later views, released at the end. The spec functions model them;
/// their defaults leave the model unspecified, for an implementation to
/// state.
pub trait Rendered<C: Component>: Sized {
    /// What the root object is built under (a parent object, a scope).
    type Parent;

    /// The views the objects were built from and then patched with, in order.
    open spec fn applied(&self) -> Seq<C::View> {
        arbitrary()
    }

    /// The descendants of the first view have been built.
    open spec fn children_built(&self) -> bool {
        arbitrary()
    }

    /// Whether patching the objects with `view` applies.
    open spec fn patch_applies(&self, view: C::View) -> bool {
        arbitrary()
    }

    /// Every object has been released.
    open spec fn released(&self) -> bool {
        arbitrary()
    }

    /// Builds the root object of `view`, without its descendants.
    fn build_root(view: &C::View, parent: &Self::Parent) -> (r: Self)
        ensures
            r.applied() == seq![*view],
            !r.children_built(),
            !r.released(),
    ;

    /// Builds the descendants of the first view under the root.
    fn build_children(&mut self, view: &C::View)
        ensures
            final(self).applied() == old(self).applied(),
            final(self).children_built(),
            final(self).released() == old(self).released(),
    ;

    /// Brings the objects in line with `view`; false when no patch applies.
    fn patch(&mut self, view: &C::View) -> (r: bool)
        ensures
            r == old(self).patch_applies(*view),
            final(self).applied() == old(self).applied().push(*view),
            final(self).children_built() == old(self).children_built(),
            final(self).released() == old(self).released(),
    ;

    /// Releases every object.
    fn unmount(&mut self)
        ensures
            final(self).applied() == old(self).applied(),
            final(self).released(),
    ;
}

/// The task that owns one live component: its state, its rendered objects
/// and its control state.
pub struct ComponentTask<C: Component, R: Rendered<C>> {
    component: C,
    marker: Option<R>,
    retired: Ghost<Option<R>>,
    state: TaskState,
}

impl<C: Component, R: Rendered<C>> View for ComponentTask<C, R> {
    type V = TaskState;

    closed spec fn view(&self) -> TaskState {
        self.state
    }
}

/// What `handle` does on `next`, from task `t0` to task `t1` with result `r`.
pub open spec fn handled<C: Component, R: Rendered<C>>(
    t0: ComponentTask<C, R>,
    next: Next<C>,
    t1: ComponentTask<C, R>,
    r: Drive<C>,
) -> bool {
    let c0 = t0.component_spec();
    let m0 = t0.marker_spec();
    if !t0@.live {
        &&& r is Discarded
        &&& t1@ == t0@
        &&& t1.component_spec() == c0
        &&& t1.marker_spec() == m0
        &&& t1.retired_spec() == t0.retired_spec()
    } else {
        match next {
            Next::Ready(ComponentMessage::Update(msg)) => transitioned(t0, c0.update_spec(msg), t1, r),
            Next::Ready(ComponentMessage::Props(props)) => transitioned(t0, c0.change_spec(props), t1, r),
            Next::Ready(ComponentMessage::Mounted) => {
                &&& (t1@, decision_of(r)) == step_spec(t0@, Event::Mounted)
                &&& t1.component_spec() == (if r is Mounted { c0.mounted_spec() } else { c0 })
                &&& t1.marker_spec() == m0
                &&& t1.retired_spec() == t0.retired_spec()
            },
            Next::Ready(ComponentMessage::Unmounted) => {
                &&& (t1@, decision_of(r)) == step_spec(t0@, Event::Unmounted)
                &&& t1.component_spec() == c0.unmounted_spec()
                &&& t1.marker_spec() is None
                &&& (m0 is Some ==> t1.retired_spec() is Some && t1.retired_spec()->Some_0.released()
                    && t1.retired_spec()->Some_0.applied() == m0->Some_0.applied())
                &&& (m0 is None ==> t1.retired_spec() == t0.retired_spec())
            },
            Next::Empty => {
                &&& (t1@, decision_of(r)) == step_spec(t0@, Event::Empty)
                &&& t1.component_spec() == c0
                &&& t1.retired_spec() == t0.retired_spec()
                &&& if r is Patched {
                    &&& m0 is Some
                    &&& r == Drive::<C>::Patched(m0->Some_0.patch_applies(c0.view_spec()))
                    &&& t1.marker_spec() is Some
                    &&& t1.marker_spec()->Some_0.applied() == m0->Some_0.applied().push(c0.view_spec())
                    &&& t1.marker_spec()->Some_0.children_built() == m0->Some_0.children_built()
                    &&& t1.marker_spec()->Some_0.released() == m0->Some_0.released()
                } else {
                    t1.marker_spec() == m0
                }
            },
            Next::Closed => {
                &&& (t1@, decision_of(r)) == step_spec(t0@, Event::Closed)
                &&& t1.component_spec() == c0
                &&& t1.marker_spec() == m0
                &&& t1.retired_spec() == t0.retired_spec()
            },
        }
    }
}

/// A transition of the component to `after`, carried out by the task: the
/// control state follows the action's kind, a deferred job is handed out,
/// and the rendered objects are untouched.
pub open spec fn transitioned<C: Component, R: Rendered<C>>(
    t0: ComponentTask<C, R>,
    after: (C, UpdateAction<C>),
    t1: ComponentTask<C, R>,
    r: Drive<C>,
) -> bool {
    &&& t1.component_spec() == after.0
    &&& (t1@, decision_of(r)) == step_spec(t0@, Event::Transition(outcome_of(after.1)))
    &&& (after.1 is Defer ==> r == Drive::<C>::Spawn(after.1->Defer_0))
    &&& t1.marker_spec() == t0.marker_spec()
    &&& t1.retired_spec() == t0.retired_spec()
}

impl<C: Component, R: Rendered<C>> ComponentTask<C, R> {
    /// The control state agrees with the rendered objects held.
    pub closed spec fn wf(&self) -> bool {
        self.state.rendered == self.marker is Some
    }

    /// The component's state.
    pub closed spec fn component_spec(&self) -> C {
        self.component
    }

    /// The rendered objects held.
    pub closed spec fn marker_spec(&self) -> Option<R> {
        self.marker
    }

    /// The rendered objects that were released at teardown.
    pub closed spec fn retired_spec(&self) -> Option<R> {
        self.retired@
    }

    /// Builds a task in both phases at once.
    pub fn new(props: C::Properties, parent: &R::Parent) -> (r: Self)
        ensures
            r.wf(),
            r@ == fresh(true),
            r.component_spec() == C::create_spec(props),
            r.marker_spec() is Some,
            r.marker_spec()->Some_0.applied() == seq![C::create_spec(props).view_spec()],
            r.marker_spec()->Some_0.children_built(),
            !r.marker_spec()->Some_0.released(),
            r.retired_spec() is None,
    {
        PartialComponentTask::new(props, parent).finalise()
    }

    /// The rendered objects, while there are any.
    pub fn object(&self) -> (r: Option<&R>)
        requires
            self.wf(),
        ensures
            r is Some <==> self@.rendered,
            r is Some <==> self.marker_spec() is Some,
            r is Some ==> *r->Some_0 == self.marker_spec()->Some_0,
    {
        self.marker.as_ref()
    }

    /// The component's current state.
    pub fn component(&self) -> (r: &C)
        ensures
            *r == self.component_spec(),
    {
        &self.component
    }

    /// The control state.
    pub fn state(&self) -> (r: TaskState)
        ensures
            r == self@,
    {
        self.state
    }

    /// Whether handling `next` would derive a view and patch the rendered
    /// objects, so that the driver can silence the objects' own change
    /// notifications around it.
    pub fn will_patch(&self, next: &Next<C>) -> (r: bool)
        ensures
            r == (self@.live && next is Empty && self@.render_pending && self@.rendered),
            r == (step_spec(self@, event_of(*next, Outcome::Nothing)).1 == Decision::Patch),
    {
        match next {
            Next::Empty => self.state.live && self.state.render_pending && self.state.rendered,
            _ => false,
        }
    }

    fn outcome(&mut self, action: UpdateAction<C>) -> (r: Drive<C>)
        requires
            old(self).state.live,
        ensures
            final(self).component == old(self).component,
            final(self).marker == old(self).marker,
            final(self).retired == old(self).retired,
            (final(self).state, decision_of(r)) == step_spec(old(self).state, Event::Transition(outcome_of(action))),
            action is Defer ==> r == Drive::<C>::Spawn(action->Defer_0),
    {
        match action {
            UpdateAction::Nothing => {
                self.state.step(Event::Transition(Outcome::Nothing));
                Drive::Proceed
            },
            UpdateAction::Render => {
                self.state.step(Event::Transition(Outcome::Render));
                Drive::Proceed
            },
            UpdateAction::Defer(job) => {
                self.state.step(Event::Transition(Outcome::Defer));
                Drive::Spawn(job)
            },
        }
    }

    /// Handles what one poll of the message stream gave, calling the
    /// component's transitions and hooks and the rendered objects as the
    /// control state decides.
    pub fn handle(&mut self, next: Next<C>) -> (r: Drive<C>)
        requires
            old(self).wf(),
        ensures
            final(self).wf(),
            handled(*old(self), next, *final(self), r),
    {
        if !self.state.live {
            return Drive::Discarded;
        }
        match next {
            Next::Ready(ComponentMessage::Update(msg)) => {
                let action = self.component.update(msg);
                self.outcome(action)
            },
            Next::Ready(ComponentMessage::Props(props)) => {
                let action = self.component.change(props);
                self.outcome(action)
            },
            Next::Ready(ComponentMessage::Mounted) => {
                let d = self.state.step(Event::Mounted);
                if d == Decision::FireMounted {
                    self.component.mounted();
                    Drive::Mounted
                } else {
                    Drive::Proceed
                }
            },
            Next::Ready(ComponentMessage::Unmounted) => {
                self.state.step(Event::Unmounted);
                if let Some(mut marker) = self.marker.take() {
                    marker.unmount();
                    self.retired = Ghost(Some(marker));
                }
                self.component.unmounted();
                Drive::TornDown
            },
            Next::Empty => {
                let d = self.state.step(Event::Empty);
                if d == Decision::Patch {
                    let view = self.component.view();
                    match self.marker.as_mut() {
                        Some(marker) => Drive::Patched(marker.patch(&view)),
                        None => Drive::Concluded,
                    }
                } else if d == Decision::Suspend {
                    Drive::Suspend
                } else {
                    Drive::Concluded
                }
            },
            Next::Closed => {
                self.state.step(Event::Closed);
                Drive::Concluded
            },
        }
    }
}

/// A task whose root object is built but whose descendants are not yet.
pub struct PartialComponentTask<C: Component, R: Rendered<C>> {
    task: ComponentTask<C, R>,
    view: C::View,
}

impl<C: Component, R: Rendered<C>> PartialComponentTask<C, R> {
    /// The task is fresh, holds its root object built from the first view,
    /// and nothing has been released.
    pub closed spec fn wf(&self) -> bool {
        &&& self.task.wf()
        &&& self.task.state == fresh(true)
        &&& self.task.marker is Some
        &&& self.task.marker->Some_0.applied() == seq![self.view]
        &&& self.view == self.task.component.view_spec()
        &&& !self.task.marker->Some_0.released()
        &&& self.task.retired@ is None
    }

    /// The component's state.
    pub closed spec fn component_spec(&self) -> C {
        self.task.component
    }

    /// The root object.
    pub closed spec fn root_spec(&self) -> R {
        self.task.marker->Some_0
    }

    /// Creates the component from its properties, derives its first view and
    /// builds only the root object of it.
    pub fn new(props: C::Properties, parent: &R::Parent) -> (r: Self)
        ensures
            r.wf(),
            r.component_spec() == C::create_spec(props),
            r.root_spec().applied() == seq![C::create_spec(props).view_spec()],
            !r.root_spec().children_built(),
    {
        let component = C::create(props);
        let view = component.view();
        let root = R::build_root(&view, parent);
        PartialComponentTask {
            task: ComponentTask {
                component,
                marker: Some(root),
                retired: Ghost(None),
                state: TaskState::new(true),
            },
            view,
        }
    }

    /// The root object.
    pub fn object(&self) -> (r: &R)
        requires
            self.wf(),
        ensures
            *r == self.root_spec(),
    {
        self.task.marker.as_ref().unwrap()
    }

    /// The component's state.
    pub fn component(&self) -> (r: &C)
        ensures
            *r == self.component_spec(),
    {
        &self.task.component
    }

    /// Builds the descendants of the first view under the root and hands
    /// over the finished task.
    pub fn finalise(self) -> (r: ComponentTask<C, R>)
        requires
            self.wf(),
        ensures
            r.wf(),
            r@ == fresh(true),
            r.component_spec() == self.component_spec(),
            r.marker_spec() is Some,
            r.marker_spec()->Some_0.children_built(),
            r.marker_spec()->Some_0.applied() == self.root_spec().applied(),
            !r.marker_spec()->Some_0.released(),
            r.retired_spec() is None,
    {
        let mut task = self.task;
        if let Some(marker) = task.marker.as_mut() {
            marker.build_children(&self.view);
        }
        task
    }
}

} // verus!
