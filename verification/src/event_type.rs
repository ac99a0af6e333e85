//! The closed set of event kinds, their numbers on the wire, and which kind
//! refines which.

use vstd::prelude::*;

verus! {

/// Every event kind the engine can be asked to recognise.
#[derive(Clone, Copy, PartialEq, Eq, Structural, Debug)]
pub enum EventType {
    Event,
    CustomEvent,
    AnimationEvent,
    CloseEvent,
    GestureEvent,
    HashchangeEvent,
    IntersectionChangeEvent,
    TransitionEvent,
    UIEvent,
    FocusEvent,
    InputEvent,
    MouseEvent,
    PointerEvent,
}

impl EventType {
    /// The number that stands for the kind on the wire.
    pub open spec fn spec_value(self) -> i32 {
        match self {
            EventType::Event => 0,
            EventType::CustomEvent => 1,
            EventType::AnimationEvent => 2,
            EventType::CloseEvent => 3,
            EventType::GestureEvent => 4,
            EventType::HashchangeEvent => 5,
            EventType::IntersectionChangeEvent => 6,
            EventType::TransitionEvent => 7,
            EventType::UIEvent => 8,
            EventType::FocusEvent => 9,
            EventType::InputEvent => 10,
            EventType::MouseEvent => 11,
            EventType::PointerEvent => 12,
        }
    }

    /// The kind a kind is built on; none for the base kind.
    pub open spec fn spec_parent(self) -> Option<EventType> {
        match self {
            EventType::Event => None,
            EventType::CustomEvent => Some(EventType::Event),
            EventType::AnimationEvent => Some(EventType::Event),
            EventType::CloseEvent => Some(EventType::Event),
            EventType::GestureEvent => Some(EventType::Event),
            EventType::HashchangeEvent => Some(EventType::Event),
            EventType::IntersectionChangeEvent => Some(EventType::Event),
            EventType::TransitionEvent => Some(EventType::Event),
            EventType::UIEvent => Some(EventType::Event),
            EventType::FocusEvent => Some(EventType::UIEvent),
            EventType::InputEvent => Some(EventType::UIEvent),
            EventType::MouseEvent => Some(EventType::UIEvent),
            EventType::PointerEvent => Some(EventType::MouseEvent),
        }
    }

    /// How many steps lie between the kind and the base kind.
    pub open spec fn depth(self) -> nat {
        match self {
            EventType::Event => 0,
            EventType::FocusEvent => 2,
            EventType::InputEvent => 2,
            EventType::MouseEvent => 2,
            EventType::PointerEvent => 3,
            _ => 1,
        }
    }

    /// Whether an object of kind `self` is also an object of kind `target`:
    /// `target` is `self` or lies on the chain from `self` to the base kind.
    pub open spec fn refines(self, target: EventType) -> bool
        decreases self.depth(),
    {
        self == target || match self.spec_parent() {
            Some(p) => p.refines(target),
            None => false,
        }
    }

    #[verifier::when_used_as_spec(spec_value)]
    pub fn value(self) -> (v: i32)
        ensures
            v == self.spec_value(),
    {
        match self {
            EventType::Event => 0,
            EventType::CustomEvent => 1,
            EventType::AnimationEvent => 2,
            EventType::CloseEvent => 3,
            EventType::GestureEvent => 4,
            EventType::HashchangeEvent => 5,
            EventType::IntersectionChangeEvent => 6,
            EventType::TransitionEvent => 7,
            EventType::UIEvent => 8,
            EventType::FocusEvent => 9,
            EventType::InputEvent => 10,
            EventType::MouseEvent => 11,
            EventType::PointerEvent => 12,
        }
    }

    /// The kind a number stands for, if it stands for one.
    pub open spec fn spec_from_value(v: i32) -> Option<EventType> {
        if v == 0 {
            Some(EventType::Event)
        } else if v == 1 {
            Some(EventType::CustomEvent)
        } else if v == 2 {
            Some(EventType::AnimationEvent)
        } else if v == 3 {
            Some(EventType::CloseEvent)
        } else if v == 4 {
            Some(EventType::GestureEvent)
        } else if v == 5 {
            Some(EventType::HashchangeEvent)
        } else if v == 6 {
            Some(EventType::IntersectionChangeEvent)
        } else if v == 7 {
            Some(EventType::TransitionEvent)
        } else if v == 8 {
            Some(EventType::UIEvent)
        } else if v == 9 {
            Some(EventType::FocusEvent)
        } else if v == 10 {
            Some(EventType::InputEvent)
        } else if v == 11 {
            Some(EventType::MouseEvent)
        } else if v == 12 {
            Some(EventType::PointerEvent)
        } else {
            None
        }
    }

    #[verifier::when_used_as_spec(spec_from_value)]
    pub fn from_value(v: i32) -> (r: Option<EventType>)
        ensures
            r == EventType::spec_from_value(v),
    {
        if v == 0 {
            Some(EventType::Event)
        } else if v == 1 {
            Some(EventType::CustomEvent)
        } else if v == 2 {
            Some(EventType::AnimationEvent)
        } else if v == 3 {
            Some(EventType::CloseEvent)
        } else if v == 4 {
            Some(EventType::GestureEvent)
        } else if v == 5 {
            Some(EventType::HashchangeEvent)
        } else if v == 6 {
            Some(EventType::IntersectionChangeEvent)
        } else if v == 7 {
            Some(EventType::TransitionEvent)
        } else if v == 8 {
            Some(EventType::UIEvent)
        } else if v == 9 {
            Some(EventType::FocusEvent)
        } else if v == 10 {
            Some(EventType::InputEvent)
        } else if v == 11 {
            Some(EventType::MouseEvent)
        } else if v == 12 {
            Some(EventType::PointerEvent)
        } else {
            None
        }
    }

    #[verifier::when_used_as_spec(spec_parent)]
    pub fn parent(self) -> (p: Option<EventType>)
        ensures
            p == self.spec_parent(),
    {
        match self {
            EventType::Event => None,
            EventType::FocusEvent => Some(EventType::UIEvent),
            EventType::InputEvent => Some(EventType::UIEvent),
            EventType::MouseEvent => Some(EventType::UIEvent),
            EventType::PointerEvent => Some(EventType::MouseEvent),
            _ => Some(EventType::Event),
        }
    }

    /// Decides `refines` by walking the chain from `self` to the base kind.
    pub fn is_a(self, target: EventType) -> (r: bool)
        ensures
            r == self.refines(target),
    {
        let mut current: EventType = self;
        loop
            invariant
                self.refines(target) == current.refines(target),
            decreases current.depth(),
        {
            if current == target {
                return true;
            }
            match current.parent() {
                Some(p) => {
                    current = p;
                },
                None => {
                    return false;
                },
            }
        }
    }

    /// What a failed downcast to the kind says.
    pub open spec fn spec_mismatch(self) -> Seq<char> {
        match self {
            EventType::Event => "The type value of Event does not belong to the Event type."@,
            EventType::CustomEvent => "The type value of Event does not belong to the CustomEvent type."@,
            EventType::AnimationEvent => "The type value of Event does not belong to the AnimationEvent type."@,
            EventType::CloseEvent => "The type value of Event does not belong to the CloseEvent type."@,
            EventType::GestureEvent => "The type value of Event does not belong to the GestureEvent type."@,
            EventType::HashchangeEvent => "The type value of Event does not belong to the HashchangeEvent type."@,
            EventType::IntersectionChangeEvent => "The type value of Event does not belong to the IntersectionChangeEvent type."@,
            EventType::TransitionEvent => "The type value of Event does not belong to the TransitionEvent type."@,
            EventType::UIEvent => "The type value of Event does not belong to the UIEvent type."@,
            EventType::FocusEvent => "The type value of Event does not belong to the FocusEvent type."@,
            EventType::InputEvent => "The type value of Event does not belong to the InputEvent type."@,
            EventType::MouseEvent => "The type value of Event does not belong to the MouseEvent type."@,
            EventType::PointerEvent => "The type value of Event does not belong to the PointerEvent type."@,
        }
    }

    pub fn mismatch(self) -> (m: &'static str)
        ensures
            m@ == self.spec_mismatch(),
    {
        match self {
            EventType::Event => "The type value of Event does not belong to the Event type.",
            EventType::CustomEvent => "The type value of Event does not belong to the CustomEvent type.",
            EventType::AnimationEvent => "The type value of Event does not belong to the AnimationEvent type.",
            EventType::CloseEvent => "The type value of Event does not belong to the CloseEvent type.",
            EventType::GestureEvent => "The type value of Event does not belong to the GestureEvent type.",
            EventType::HashchangeEvent => "The type value of Event does not belong to the HashchangeEvent type.",
            EventType::IntersectionChangeEvent => "The type value of Event does not belong to the IntersectionChangeEvent type.",
            EventType::TransitionEvent => "The type value of Event does not belong to the TransitionEvent type.",
            EventType::UIEvent => "The type value of Event does not belong to the UIEvent type.",
            EventType::FocusEvent => "The type value of Event does not belong to the FocusEvent type.",
            EventType::InputEvent => "The type value of Event does not belong to the InputEvent type.",
            EventType::MouseEvent => "The type value of Event does not belong to the MouseEvent type.",
            EventType::PointerEvent => "The type value of Event does not belong to the PointerEvent type.",
        }
    }
}

/// The numbers of the kinds are the integers from 0 to 12, one each, and
/// reading a number gives back the kind it was written for.
pub proof fn values_are_contiguous(a: EventType, b: EventType, v: i32)
    ensures
        0 <= a.spec_value() <= 12,
        a.spec_value() == b.spec_value() ==> a == b,
        EventType::from_value(a.value()) == Some(a),
        EventType::from_value(v) is Some <==> 0 <= v <= 12,
        EventType::from_value(v) matches Some(t) ==> t.value() == v,
{
}

/// Refining is an order with the base kind at its bottom: every kind refines
/// itself and the base kind, what refines a kind refines what that kind
/// refines, and two kinds that refine each other are one.
pub proof fn refines_is_an_order(a: EventType, b: EventType, c: EventType)
    ensures
        a.refines(a),
        a.refines(EventType::Event),
        a.refines(b) && b.refines(c) ==> a.refines(c),
        a.refines(b) && b.refines(a) ==> a == b,
{
    reveal_with_fuel(EventType::refines, 5);
}

/// What each kind refines, spelled out.
pub proof fn refines_table(a: EventType, b: EventType)
    ensures
        a.refines(b) <==> (a == b || b == EventType::Event || (b == EventType::UIEvent && (a
            == EventType::FocusEvent || a == EventType::InputEvent || a == EventType::MouseEvent
            || a == EventType::PointerEvent)) || (b == EventType::MouseEvent && a
            == EventType::PointerEvent)),
{
    reveal_with_fuel(EventType::refines, 5);
}

} // verus!
