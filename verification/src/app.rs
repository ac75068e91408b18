//! The runtime: the one owner of the top-level state, and the step that
//! turns whatever arrived into a state change and work for the caller.

use vstd::prelude::*;
use crate::action::{action_for, event_to_action, Action, Event, Mode};
use crate::ui::components::Component;
use crate::ui::layout::Rect;

verus! {

/// What the wait at the top of the loop produced.
#[derive(Clone, Copy, Debug, PartialEq, Eq, Structural)]
pub enum Incoming {
    /// The terminal reported an event.
    Input(Event),
    /// An action left the queue.
    Queued(Action),
}

/// What the caller of [`App::step`] has to do after the step.
#[derive(Clone, Copy, Debug, PartialEq, Eq, Structural)]
pub struct Reaction {
    /// Draw the screen now.
    pub redraw: bool,
    /// Put this action at the back of the queue.
    pub follow_up: Option<Action>,
    /// Leave the loop.
    pub quit: bool,
}

/// The top-level state and the root of the component tree.
pub struct App<C: Component> {
    pub should_quit: bool,
    pub mode: Mode,
    pub main_window: C,
}

impl<C: Component> App<C> {
    /// The action that `incoming` amounts to while `mode` is active.
    pub open spec fn arrived(mode: Mode, incoming: Incoming) -> Option<Action> {
        match incoming {
            Incoming::Input(event) => action_for(mode, event),
            Incoming::Queued(action) => Some(action),
        }
    }

    /// Whether resolving `action` may take `self` to `after` with the
    /// follow-up `reply`: the top level resolves quitting, redrawing and the
    /// mode switches itself, and hands every other action to the root
    /// component.
    pub open spec fn updates(self, action: Action, after: Self, reply: Option<Action>) -> bool {
        match action {
            Action::Quit => {
                &&& after.should_quit
                &&& after.mode == self.mode
                &&& after.main_window == self.main_window
                &&& reply is None
            },
            Action::Render => after == self && reply == Some(Action::Render),
            Action::SwitchToInputMode => {
                &&& after.should_quit == self.should_quit
                &&& after.mode == Mode::Input
                &&& after.main_window == self.main_window
                &&& reply == Some(Action::Render)
            },
            Action::SwitchToNormalMode => {
                &&& after.should_quit == self.should_quit
                &&& after.mode == Mode::Normal
                &&& after.main_window == self.main_window
                &&& reply == Some(Action::Render)
            },
            _ => {
                &&& after.should_quit == self.should_quit
                &&& after.mode == self.mode
                &&& self.main_window.reacts(action, &after.main_window, reply)
            },
        }
    }

    /// Whether one step on `incoming` may take `self` to `after` and ask
    /// the caller for `reaction`.
    pub open spec fn steps(self, incoming: Incoming, after: Self, reaction: Reaction) -> bool {
        &&& reaction.quit == after.should_quit
        &&& match Self::arrived(self.mode, incoming) {
            None => after == self && !reaction.redraw && reaction.follow_up is None,
            Some(Action::Render) => after == self && reaction.redraw && reaction.follow_up is None,
            Some(action) => !reaction.redraw && self.updates(action, after, reaction.follow_up),
        }
    }

    /// What a step does to the top-level state, whatever the root component
    /// does. The quit flag is set by `Quit` and by nothing else, and never
    /// cleared; the mode changes with the two switching actions and with
    /// nothing else. The caller is asked to draw exactly for `Render`, and
    /// each of the two switches queues exactly one `Render`; `Quit` and
    /// `Render` queue nothing, and neither does a step without an action.
    pub proof fn lemma_step_at_top_level(
        self,
        incoming: Incoming,
        after: Self,
        reaction: Reaction,
    )
        requires
            self.steps(incoming, after, reaction),
        ensures
            ({
                let arrived = Self::arrived(self.mode, incoming);
                &&& after.should_quit <==> self.should_quit || arrived == Some(Action::Quit)
                &&& reaction.quit == after.should_quit
                &&& after.mode == match arrived {
                    Some(Action::SwitchToInputMode) => Mode::Input,
                    Some(Action::SwitchToNormalMode) => Mode::Normal,
                    _ => self.mode,
                }
                &&& reaction.redraw <==> arrived == Some(Action::Render)
                &&& arrived == Some(Action::SwitchToInputMode) || arrived == Some(
                    Action::SwitchToNormalMode,
                ) ==> reaction.follow_up == Some(Action::Render)
                &&& arrived is None || arrived == Some(Action::Quit) || arrived == Some(
                    Action::Render,
                ) ==> reaction.follow_up is None
            }),
    {
    }

    /// A runtime in normal mode that has not been asked to quit.
    pub fn new(main_window: C) -> (app: Self)
        ensures
            !app.should_quit,
            app.mode == Mode::Normal,
            app.main_window == main_window,
    {
        App { should_quit: false, mode: Mode::Normal, main_window }
    }

    /// Resolves one action. Quitting sets the flag and goes no further; a
    /// mode switch changes the mode and asks for a redraw; any other action
    /// goes to the root component, whose reply is handed back.
    #[must_use]
    pub fn update(&mut self, action: Action) -> (reply: Option<Action>)
        ensures
            old(self).updates(action, *final(self), reply),
    {
        match action {
            Action::Quit => {
                self.should_quit = true;
                None
            },
            Action::Render => Some(Action::Render),
            Action::SwitchToInputMode => {
                self.mode = Mode::Input;
                Some(Action::Render)
            },
            Action::SwitchToNormalMode => {
                self.mode = Mode::Normal;
                Some(Action::Render)
            },
            _ => self.main_window.handle_actions(action),
        }
    }

    /// One turn of the loop, without the waiting and the drawing. A terminal
    /// event is read under the current mode first. A redraw request is
    /// answered with `redraw`; any other action is resolved by
    /// [`App::update`], and its follow-up is handed back to be queued, never
    /// resolved within the same step.
    pub fn step(&mut self, incoming: Incoming) -> (reaction: Reaction)
        ensures
            old(self).steps(incoming, *final(self), reaction),
    {
        let arrived = match incoming {
            Incoming::Input(event) => event_to_action(self.mode, event),
            Incoming::Queued(action) => Some(action),
        };
        let mut redraw = false;
        let mut follow_up = None;
        if let Some(action) = arrived {
            if action.is_render() {
                redraw = true;
            } else {
                follow_up = self.update(action);
            }
        }
        Reaction { redraw, follow_up, quit: self.should_quit }
    }

    /// Lays the component tree out in `rect`, the whole drawing surface.
    /// The scene is the root component's; the top-level state stays as it
    /// is.
    pub fn render(&mut self, rect: Rect) -> (scene: C::Scene)
        ensures
            final(self).should_quit == old(self).should_quit,
            final(self).mode == old(self).mode,
            old(self).main_window.renders(rect, &final(self).main_window, scene),
    {
        self.main_window.render(rect)
    }
}

} // verus!
