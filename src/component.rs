use vstd::prelude::*;

use crate::action::UpdateAction;

verus! {

/// The capability set of a user interface component: its construction from
/// properties, its transitions on messages and on new properties, its
/// lifecycle hooks, and the derivation of a view description from its state.
///
/// Each operation is described by a spec function of the same name, which an
/// implementation defines and its code meets. The defaults describe a
/// component that ignores its messages and whose hooks do nothing; where no
/// default makes sense (construction, new properties, the view) the default
/// leaves the value unspecified, so only an implementation that states it
/// can be verified.
pub trait Component: Default + Sized {
    /// The messages that `update` consumes.
    type Message: Clone + Send;

    /// The properties a parent hands to this component.
    type Properties: Clone + Default;

    /// The declarative view description that `view` derives.
    type View;

    /// The component built from `props`.
    open spec fn create_spec(props: Self::Properties) -> Self {
        arbitrary()
    }

    /// The state and the action that follow `self` on `msg`.
    open spec fn update_spec(self, msg: Self::Message) -> (Self, UpdateAction<Self>) {
        (self, UpdateAction::Nothing)
    }

    /// The state and the action that follow `self` on new properties.
    open spec fn change_spec(self, props: Self::Properties) -> (Self, UpdateAction<Self>) {
        arbitrary()
    }

    /// The state after the `mounted` hook.
    open spec fn mounted_spec(self) -> Self {
        self
    }

    /// The state after the `unmounted` hook.
    open spec fn unmounted_spec(self) -> Self {
        self
    }

    /// The view description of `self`.
    open spec fn view_spec(&self) -> Self::View {
        arbitrary()
    }

    /// Builds the component from its properties; a root component ignores
    /// them and starts from its default state.
    fn create(props: Self::Properties) -> (r: Self)
        ensures
            r == Self::create_spec(props),
    ;

    /// Processes a message.
    fn update(&mut self, msg: Self::Message) -> (r: UpdateAction<Self>)
        ensures
            (*final(self), r) == old(self).update_spec(msg),
    ;

    /// Takes new properties from the parent.
    fn change(&mut self, props: Self::Properties) -> (r: UpdateAction<Self>)
        ensures
            (*final(self), r) == old(self).change_spec(props),
    ;

    /// Called once when the component becomes visible.
    fn mounted(&mut self)
        ensures
            *final(self) == old(self).mounted_spec(),
    ;

    /// Called once just before the component is removed.
    fn unmounted(&mut self)
        ensures
            *final(self) == old(self).unmounted_spec(),
    ;

    /// Derives the view description from the current state.
    fn view(&self) -> (r: Self::View)
        ensures
            r == self.view_spec(),
    ;
}

} // verus!
