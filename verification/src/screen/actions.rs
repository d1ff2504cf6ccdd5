//! The actions of the menu, their order, and sets of them.

use vstd::prelude::*;
use crate::valve::ValveCommand;
use crate::water_meter::WaterMeterCommand;

verus! {

/// Something that the user can set off from the menu.
#[derive(Clone, Copy, Debug, PartialEq, Eq, Structural)]
pub enum Action {
    OpenValve,
    CloseValve,
    Arm,
    Disarm,
    Dismiss,
}

/// What an action asks of the rest of the system.
#[derive(Clone, Copy, Debug, PartialEq, Eq, Structural)]
pub enum Command {
    Valve(ValveCommand),
    WaterMeter(WaterMeterCommand),
}

/// The place of an action in the menu, from the top.
pub open spec fn ordinal(action: Action) -> int {
    match action {
        Action::OpenValve => 0,
        Action::CloseValve => 1,
        Action::Arm => 2,
        Action::Disarm => 3,
        Action::Dismiss => 4,
    }
}

/// The member of `actions` that comes first after place `bound`, if any.
pub open spec fn first_after(actions: Set<Action>, bound: int) -> Option<Action> {
    if bound < 0 && actions.contains(Action::OpenValve) {
        Some(Action::OpenValve)
    } else if bound < 1 && actions.contains(Action::CloseValve) {
        Some(Action::CloseValve)
    } else if bound < 2 && actions.contains(Action::Arm) {
        Some(Action::Arm)
    } else if bound < 3 && actions.contains(Action::Disarm) {
        Some(Action::Disarm)
    } else if bound < 4 && actions.contains(Action::Dismiss) {
        Some(Action::Dismiss)
    } else {
        None
    }
}

/// The member of `actions` that comes last before place `bound`, if any.
pub open spec fn last_before(actions: Set<Action>, bound: int) -> Option<Action> {
    if bound > 4 && actions.contains(Action::Dismiss) {
        Some(Action::Dismiss)
    } else if bound > 3 && actions.contains(Action::Disarm) {
        Some(Action::Disarm)
    } else if bound > 2 && actions.contains(Action::Arm) {
        Some(Action::Arm)
    } else if bound > 1 && actions.contains(Action::CloseValve) {
        Some(Action::CloseValve)
    } else if bound > 0 && actions.contains(Action::OpenValve) {
        Some(Action::OpenValve)
    } else {
        None
    }
}

/// A set of actions.
#[derive(Clone, Copy, Debug, PartialEq, Eq, Structural)]
pub struct ActionSet {
    open_valve: bool,
    close_valve: bool,
    arm: bool,
    disarm: bool,
    dismiss: bool,
}

impl View for ActionSet {
    type V = Set<Action>;

    closed spec fn view(&self) -> Set<Action> {
        Set::new(
            |action: Action|
                match action {
                    Action::OpenValve => self.open_valve,
                    Action::CloseValve => self.close_valve,
                    Action::Arm => self.arm,
                    Action::Disarm => self.disarm,
                    Action::Dismiss => self.dismiss,
                },
        )
    }
}

impl ActionSet {
    /// The set without members.
    pub fn empty() -> (actions: Self)
        ensures
            actions@ == Set::<Action>::empty(),
    {
        ActionSet {
            open_valve: false,
            close_valve: false,
            arm: false,
            disarm: false,
            dismiss: false,
        }
    }

    /// Whether `action` is a member.
    pub fn contains(&self, action: Action) -> (member: bool)
        ensures
            member == self@.contains(action),
    {
        match action {
            Action::OpenValve => self.open_valve,
            Action::CloseValve => self.close_valve,
            Action::Arm => self.arm,
            Action::Disarm => self.disarm,
            Action::Dismiss => self.dismiss,
        }
    }

    /// Whether the set has no member.
    pub fn is_empty(&self) -> (empty: bool)
        ensures
            empty == (self@ == Set::<Action>::empty()),
    {
        let empty = !(self.open_valve || self.close_valve || self.arm || self.disarm
            || self.dismiss);
        proof {
            if empty {
                assert(self@ =~= Set::<Action>::empty());
            } else {
                assert(self@.contains(Action::OpenValve) || self@.contains(Action::CloseValve)
                    || self@.contains(Action::Arm) || self@.contains(Action::Disarm)
                    || self@.contains(Action::Dismiss));
            }
        }
        empty
    }

    /// Makes `action` a member.
    pub fn insert(&mut self, action: Action)
        ensures
            final(self)@ == old(self)@.insert(action),
    {
        match action {
            Action::OpenValve => {
                self.open_valve = true;
            },
            Action::CloseValve => {
                self.close_valve = true;
            },
            Action::Arm => {
                self.arm = true;
            },
            Action::Disarm => {
                self.disarm = true;
            },
            Action::Dismiss => {
                self.dismiss = true;
            },
        }
    }

    /// The members that `other` has too.
    pub fn intersection(&self, other: ActionSet) -> (common: Self)
        ensures
            common@ == self@.intersect(other@),
    {
        ActionSet {
            open_valve: self.open_valve && other.open_valve,
            close_valve: self.close_valve && other.close_valve,
            arm: self.arm && other.arm,
            disarm: self.disarm && other.disarm,
            dismiss: self.dismiss && other.dismiss,
        }
    }
}

/// Two action sets with the same members are the same set.
pub proof fn lemma_action_set_by_members(a: ActionSet, b: ActionSet)
    requires
        a@ == b@,
    ensures
        a == b,
{
    assert(b.open_valve == b@.contains(Action::OpenValve));
    assert(b.close_valve == b@.contains(Action::CloseValve));
    assert(b.arm == b@.contains(Action::Arm));
    assert(b.disarm == b@.contains(Action::Disarm));
    assert(b.dismiss == b@.contains(Action::Dismiss));
}

impl Action {
    /// What the action asks for; dismissing asks for nothing.
    pub open spec fn spec_trigger(self) -> Option<Command> {
        match self {
            Action::OpenValve => Some(Command::Valve(ValveCommand::Open)),
            Action::CloseValve => Some(Command::Valve(ValveCommand::Close)),
            Action::Arm => Some(Command::WaterMeter(WaterMeterCommand::Arm)),
            Action::Disarm => Some(Command::WaterMeter(WaterMeterCommand::Disarm)),
            Action::Dismiss => None,
        }
    }

    /// What the action asks for; dismissing asks for nothing.
    #[verifier::when_used_as_spec(spec_trigger)]
    pub fn trigger(self) -> (command: Option<Command>)
        ensures
            command == self.spec_trigger(),
    {
        match self {
            Action::OpenValve => Some(Command::Valve(ValveCommand::Open)),
            Action::CloseValve => Some(Command::Valve(ValveCommand::Close)),
            Action::Arm => Some(Command::WaterMeter(WaterMeterCommand::Arm)),
            Action::Disarm => Some(Command::WaterMeter(WaterMeterCommand::Disarm)),
            Action::Dismiss => None,
        }
    }

    /// The place of the action in the menu, from the top.
    pub fn place(self) -> (place: u8)
        ensures
            place == ordinal(self),
    {
        match self {
            Action::OpenValve => 0,
            Action::CloseValve => 1,
            Action::Arm => 2,
            Action::Disarm => 3,
            Action::Dismiss => 4,
        }
    }

    /// The topmost member of `actions`.
    pub fn first(actions: &ActionSet) -> (first: Option<Action>)
        ensures
            first == first_after(actions@, -1),
    {
        if actions.contains(Action::OpenValve) {
            Some(Action::OpenValve)
        } else if actions.contains(Action::CloseValve) {
            Some(Action::CloseValve)
        } else if actions.contains(Action::Arm) {
            Some(Action::Arm)
        } else if actions.contains(Action::Disarm) {
            Some(Action::Disarm)
        } else if actions.contains(Action::Dismiss) {
            Some(Action::Dismiss)
        } else {
            None
        }
    }

    /// The member of `actions` next above this action in the menu, or `None`
    /// where this action is at or above the topmost member.
    pub fn prev(&self, actions: &ActionSet) -> (prev: Option<Action>)
        ensures
            prev == last_before(actions@, ordinal(*self)),
    {
        let place = self.place();
        if place > 3 && actions.contains(Action::Disarm) {
            Some(Action::Disarm)
        } else if place > 2 && actions.contains(Action::Arm) {
            Some(Action::Arm)
        } else if place > 1 && actions.contains(Action::CloseValve) {
            Some(Action::CloseValve)
        } else if place > 0 && actions.contains(Action::OpenValve) {
            Some(Action::OpenValve)
        } else {
            None
        }
    }

    /// The member of `actions` next below this action in the menu, or `None`
    /// where this action is at or below the last member.
    pub fn next(&self, actions: &ActionSet) -> (next: Option<Action>)
        ensures
            next == first_after(actions@, ordinal(*self)),
    {
        let place = self.place();
        if place < 1 && actions.contains(Action::CloseValve) {
            Some(Action::CloseValve)
        } else if place < 2 && actions.contains(Action::Arm) {
            Some(Action::Arm)
        } else if place < 3 && actions.contains(Action::Disarm) {
            Some(Action::Disarm)
        } else if place < 4 && actions.contains(Action::Dismiss) {
            Some(Action::Dismiss)
        } else {
            None
        }
    }
}

/// What `first_after` yields is the member closest after the bound: it is a
/// member, lies after the bound, and no member lies between. It yields
/// nothing exactly when no member lies after the bound.
pub proof fn lemma_first_after_is_closest(actions: Set<Action>, bound: int, other: Action)
    ensures
        first_after(actions, bound) matches Some(found) ==> actions.contains(found) && bound
            < ordinal(found),
        first_after(actions, bound) matches Some(found) ==> (actions.contains(other) && bound
            < ordinal(other) ==> ordinal(found) <= ordinal(other)),
        first_after(actions, bound) is None ==> !(actions.contains(other) && bound < ordinal(
            other,
        )),
{
}

/// What `last_before` yields is the member closest before the bound: it is a
/// member, lies before the bound, and no member lies between. It yields
/// nothing exactly when no member lies before the bound.
pub proof fn lemma_last_before_is_closest(actions: Set<Action>, bound: int, other: Action)
    ensures
        last_before(actions, bound) matches Some(found) ==> actions.contains(found) && ordinal(
            found,
        ) < bound,
        last_before(actions, bound) matches Some(found) ==> (actions.contains(other) && ordinal(
            other,
        ) < bound ==> ordinal(other) <= ordinal(found)),
        last_before(actions, bound) is None ==> !(actions.contains(other) && ordinal(other)
            < bound),
{
}

} // verus!
