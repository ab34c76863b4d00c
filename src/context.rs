use vstd::prelude::*;

verus! {

/// What code running inside one drive call can learn about its task: the
/// parent's scope and the task's rendered object, where they exist.
pub struct ContextFrame<S, O> {
    pub parent_scope: Option<S>,
    pub object: Option<O>,
}

/// The frames of the drive calls under way, innermost last. A driver pushes
/// a frame when a drive call starts and pops it when the call returns.
pub struct ContextStack<S, O> {
    frames: Vec<ContextFrame<S, O>>,
}

impl<S, O> View for ContextStack<S, O> {
    type V = Seq<ContextFrame<S, O>>;

    closed spec fn view(&self) -> Seq<ContextFrame<S, O>> {
        self.frames@
    }
}

impl<S, O> ContextStack<S, O> {
    /// A stack outside any drive call.
    pub fn new() -> (r: Self)
        ensures
            r@ == Seq::<ContextFrame<S, O>>::empty(),
    {
        ContextStack { frames: Vec::new() }
    }

    /// Number of drive calls under way.
    pub fn depth(&self) -> (r: usize)
        ensures
            r == self@.len(),
    {
        self.frames.len()
    }

    /// Opens the frame of a drive call.
    pub fn enter(&mut self, frame: ContextFrame<S, O>)
        ensures
            final(self)@ == old(self)@.push(frame),
    {
        self.frames.push(frame);
    }

    /// Closes the innermost frame and hands it back; outside any drive call
    /// nothing changes.
    pub fn leave(&mut self) -> (r: Option<ContextFrame<S, O>>)
        ensures
            old(self)@.len() == 0 ==> r is None && final(self)@ == old(self)@,
            old(self)@.len() > 0 ==> r == Some(old(self)@.last()) && final(self)@ == old(self)@.drop_last(),
    {
        self.frames.pop()
    }

    /// The rendered object of the innermost drive call; none outside any
    /// drive call or where that task has no object.
    pub fn current_object(&self) -> (r: Option<&O>)
        ensures
            self@.len() == 0 ==> r is None,
            self@.len() > 0 ==> (r is Some <==> self@.last().object is Some),
            r is Some ==> *r->Some_0 == self@.last().object->Some_0,
    {
        let n = self.frames.len();
        if n == 0 {
            None
        } else {
            self.frames[n - 1].object.as_ref()
        }
    }

    /// The parent scope of the innermost drive call; none outside any drive
    /// call or where that task has no parent.
    pub fn current_parent_scope(&self) -> (r: Option<&S>)
        ensures
            self@.len() == 0 ==> r is None,
            self@.len() > 0 ==> (r is Some <==> self@.last().parent_scope is Some),
            r is Some ==> *r->Some_0 == self@.last().parent_scope->Some_0,
    {
        let n = self.frames.len();
        if n == 0 {
            None
        } else {
            self.frames[n - 1].parent_scope.as_ref()
        }
    }
}

} // verus!
