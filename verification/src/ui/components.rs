//! What every element of the screen can do.

use vstd::prelude::*;
use crate::action::Action;
use crate::ui::layout::Rect;

verus! {

/// An element of the screen: it takes actions, and it lays itself out in an
/// area it is given.
pub trait Component: Sized {
    /// What a render call hands to whoever draws.
    type Scene;

    /// Whether this element, handed `action`, may end as `after` and answer
    /// `reply`. An element that does not say is free to do anything.
    open spec fn reacts(&self, action: Action, after: &Self, reply: Option<Action>) -> bool {
        true
    }

    /// Takes an action. The reply is a follow-up action to queue, or `None`
    /// where the element has nothing to ask for.
    fn handle_actions(&mut self, action: Action) -> (reply: Option<Action>)
        ensures
            old(self).reacts(action, final(self), reply),
    ;

    /// Whether this element, laid out in `rect`, may end as `after` and
    /// hand `scene` to be drawn. An element that does not say is free to do
    /// anything.
    open spec fn renders(&self, rect: Rect, after: &Self, scene: Self::Scene) -> bool {
        true
    }

    /// Lays the element out in `rect`.
    fn render(&mut self, rect: Rect) -> (scene: Self::Scene)
        ensures
            old(self).renders(rect, final(self), scene),
    ;
}

} // verus!
