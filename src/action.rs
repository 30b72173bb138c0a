//! User intents, and the one-slot mailbox that holds the latest of them.
use vstd::prelude::*;

verus! {

/// Something the user asked for.
pub enum Action {
    /// Does nothing.
    NoOp,
    Quit,
    ToggleUI,
    ResetWorldOrigin,
    /// A command for the decoder, as its words.
    Command(Vec<String>),
}

/// Holds at most one action; a new one replaces any that was not taken yet.
pub struct ActionBin {
    action: Option<Action>,
}

impl ActionBin {
    /// The action waiting to be taken, if any.
    pub closed spec fn pending(&self) -> Option<Action> {
        self.action
    }

    /// An empty mailbox.
    pub fn create() -> (r: ActionBin)
        ensures
            r.pending() is None,
    {
        ActionBin { action: None }
    }

    /// Leaves `a` in the mailbox, in place of any action waiting there.
    pub fn put(&mut self, a: Action)
        ensures
            final(self).pending() == Some(a),
    {
        self.action = Some(a);
    }

    /// Takes the waiting action out, leaving the mailbox empty.
    pub fn dispatch(&mut self) -> (r: Option<Action>)
        ensures
            r == old(self).pending(),
            final(self).pending() is None,
    {
        self.action.take()
    }
}

/// What the rest of the player must do for an action.
pub enum Effect {
    /// Put the menu in front of the current view.
    ResetUiOrigin,
    /// Make the current view the front of the world.
    ResetWorldOrigin,
    /// Send this command to the decoder.
    Command(Vec<String>),
}

/// The player's modes and held movement keys.
pub struct ViewFlags {
    pub is_running: bool,
    pub is_gui: bool,
    pub move_forward: bool,
    pub move_backward: bool,
    pub move_left: bool,
    pub move_right: bool,
}

impl ViewFlags {
    pub open spec fn moving(&self) -> bool {
        self.move_forward || self.move_backward || self.move_left || self.move_right
    }

    /// Carries out `action` on the flags and says what else it takes:
    /// quitting stops the loop; toggling the menu on puts it in front of the
    /// view and stops all movement; the other two are handed on.
    pub fn dispatch_action(&mut self, action: Action) -> (r: Option<Effect>)
        ensures
            match action {
                Action::NoOp => r is None && *final(self) == *old(self),
                Action::Quit => r is None && *final(self) == (ViewFlags {
                    is_running: false,
                    ..*old(self)
                }),
                Action::ToggleUI => if old(self).is_gui {
                    r is None && *final(self) == (ViewFlags { is_gui: false, ..*old(self) })
                } else {
                    &&& r matches Some(Effect::ResetUiOrigin)
                    &&& final(self).is_gui
                    &&& !final(self).moving()
                    &&& final(self).is_running == old(self).is_running
                },
                Action::ResetWorldOrigin => (r matches Some(Effect::ResetWorldOrigin)) && *final(self)
                    == *old(self),
                Action::Command(c) => r == Some(Effect::Command(c)) && *final(self) == *old(self),
            },
    {
        match action {
            Action::NoOp => None,
            Action::Quit => {
                self.is_running = false;
                None
            },
            Action::ToggleUI => {
                self.is_gui = !self.is_gui;
                if self.is_gui {
                    self.move_forward = false;
                    self.move_backward = false;
                    self.move_left = false;
                    self.move_right = false;
                    Some(Effect::ResetUiOrigin)
                } else {
                    None
                }
            },
            Action::ResetWorldOrigin => Some(Effect::ResetWorldOrigin),
            Action::Command(cmd) => Some(Effect::Command(cmd)),
        }
    }
}

} // verus!
