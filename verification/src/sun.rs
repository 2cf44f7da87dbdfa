//! The sun as the hub reports it, and the light transitions that come next.
//!
//! Every instant is a number of milliseconds since the Unix epoch, in UTC.

use vstd::prelude::*;
use crate::home_assistant::Entity;

verus! {

/// Where the sun stands.
#[derive(Clone, Copy, Debug, PartialEq, Eq, Structural)]
pub enum State {
    BelowHorizon,
    AboveHorizon,
}

/// When the sun next rises and sets, and when the twilight before and after
/// begins and ends.
#[derive(Clone, Copy, Debug, PartialEq, Eq, Structural)]
pub struct Attributes {
    pub next_rising: i64,
    pub next_setting: i64,
    pub next_dawn: i64,
    pub next_dusk: i64,
}

/// Which of the two transitions an event is.
#[derive(Clone, Copy, Debug, PartialEq, Eq, Structural)]
pub enum EventKind {
    Sunset,
    Sunrise,
}

/// A light transition and the instant for which it is predicted.
#[derive(Clone, Copy, Debug, PartialEq, Eq, Structural)]
pub enum Event {
    Sunset(i64),
    Sunrise(i64),
}

/// `a / b` rounded towards zero, for a positive `b`.
pub open spec fn truncated_quotient(a: int, b: int) -> int {
    if a >= 0 {
        a / b
    } else {
        -((-a) / b)
    }
}

impl Event {
    pub open spec fn spec_timestamp(&self) -> i64 {
        match self {
            Event::Sunset(at) => *at,
            Event::Sunrise(at) => *at,
        }
    }

    pub open spec fn spec_kind(&self) -> EventKind {
        match self {
            Event::Sunset(_) => EventKind::Sunset,
            Event::Sunrise(_) => EventKind::Sunrise,
        }
    }

    /// Milliseconds from `now` to the event; negative once it has passed.
    pub open spec fn spec_millis_until(&self, now: i64) -> int {
        self.spec_timestamp() - now
    }

    /// The instant for which the event is predicted.
    #[verifier::when_used_as_spec(spec_timestamp)]
    pub fn timestamp(&self) -> (at: i64)
        ensures
            at == self.spec_timestamp(),
    {
        match self {
            Event::Sunset(at) => *at,
            Event::Sunrise(at) => *at,
        }
    }

    #[verifier::when_used_as_spec(spec_kind)]
    pub fn kind(&self) -> (kind: EventKind)
        ensures
            kind == self.spec_kind(),
    {
        match self {
            Event::Sunset(_) => EventKind::Sunset,
            Event::Sunrise(_) => EventKind::Sunrise,
        }
    }

    /// `Sunset` or `Sunrise`, as the event is shown.
    pub fn label(&self) -> (label: String)
        ensures
            label@ == (match self.spec_kind() {
                EventKind::Sunset => "Sunset"@,
                EventKind::Sunrise => "Sunrise"@,
            }),
    {
        match self {
            Event::Sunset(_) => String::from_str("Sunset"),
            Event::Sunrise(_) => String::from_str("Sunrise"),
        }
    }

    /// Whether this event is predicted for an earlier instant than the other.
    pub fn is_before(&self, other: &Event) -> (before: bool)
        ensures
            before == (self.spec_timestamp() < other.spec_timestamp()),
    {
        self.timestamp() < other.timestamp()
    }

    /// Milliseconds from `now` to the event; negative once it has passed.
    pub fn millis_until(&self, now: i64) -> (millis: i128)
        ensures
            millis == self.spec_millis_until(now),
    {
        (self.timestamp() as i128) - (now as i128)
    }

    /// Whole minutes from `now` to the event, rounded towards zero.
    pub fn minutes_until(&self, now: i64) -> (minutes: i64)
        ensures
            minutes == truncated_quotient(self.spec_millis_until(now), 60_000),
    {
        let millis: i128 = self.millis_until(now);
        if millis >= 0 {
            ((millis as u128) / 60_000) as i64
        } else {
            let past: u128 = (-millis) as u128;
            -((past / 60_000) as i64)
        }
    }

    /// Whole minutes by which `now` lies after the instant for which the
    /// event is predicted, rounded towards zero; negative while `now` lies
    /// before it.
    pub fn skew_minutes(&self, now: i64) -> (minutes: i64)
        ensures
            minutes == -truncated_quotient(self.spec_millis_until(now), 60_000),
    {
        -self.minutes_until(now)
    }
}

/// A twilight: from its first light to sunrise, or from sunset to its last.
#[derive(Clone, Copy, Debug, PartialEq, Eq, Structural)]
pub enum Window {
    Dawn { start: i64, end: i64 },
    Dusk { start: i64, end: i64 },
}

impl Window {
    pub open spec fn spec_start(&self) -> i64 {
        match self {
            Window::Dawn { start, .. } => *start,
            Window::Dusk { start, .. } => *start,
        }
    }

    /// The instant at which the twilight begins.
    #[verifier::when_used_as_spec(spec_start)]
    pub fn start(&self) -> (start: i64)
        ensures
            start == self.spec_start(),
    {
        match self {
            Window::Dawn { start, .. } => *start,
            Window::Dusk { start, .. } => *start,
        }
    }
}

/// The sun as the hub last reported it.
#[derive(Clone, Copy, Debug)]
pub struct Sun {
    pub state: State,
    pub attributes: Attributes,
}

impl Sun {
    /// The two transitions that come next, the nearer one first.
    pub open spec fn spec_next_events(&self) -> Seq<Event> {
        let sunset = Event::Sunset(self.attributes.next_setting);
        let sunrise = Event::Sunrise(self.attributes.next_rising);
        match self.state {
            State::AboveHorizon => seq![sunset, sunrise],
            State::BelowHorizon => seq![sunrise, sunset],
        }
    }

    /// The twilight that begins first; the dawn where both begin at once.
    pub open spec fn spec_next_window(&self) -> Window {
        let dawn = Window::Dawn {
            start: self.attributes.next_dawn,
            end: self.attributes.next_rising,
        };
        let dusk = Window::Dusk {
            start: self.attributes.next_dusk,
            end: self.attributes.next_setting,
        };
        if dawn.spec_start() <= dusk.spec_start() {
            dawn
        } else {
            dusk
        }
    }

    /// The sun as the hub's `sun.sun` entity describes it.
    pub fn new(entity: Entity<Attributes, State>) -> (sun: Sun)
        ensures
            sun.state == entity.state,
            sun.attributes == entity.attributes,
    {
        Sun { state: entity.state, attributes: entity.attributes }
    }

    /// The two transitions that come next, in the order in which they are to
    /// be handled: while the sun is up, its setting and then its rising;
    /// while it is down, its rising and then its setting.
    pub fn next_events(&self) -> (events: [Event; 2])
        ensures
            events@ == self.spec_next_events(),
            self.state == State::AboveHorizon ==> events[0].spec_kind() == EventKind::Sunset
                && events[1].spec_kind() == EventKind::Sunrise,
            self.state == State::BelowHorizon ==> events[0].spec_kind() == EventKind::Sunrise
                && events[1].spec_kind() == EventKind::Sunset,
    {
        let sunset = Event::Sunset(self.attributes.next_setting);
        let sunrise = Event::Sunrise(self.attributes.next_rising);
        let events = match self.state {
            State::AboveHorizon => [sunset, sunrise],
            State::BelowHorizon => [sunrise, sunset],
        };
        assert(events@ =~= self.spec_next_events());
        events
    }

    /// The twilight that begins first: the dawn, which ends at sunrise, or
    /// the dusk, which ends at sunset; the dawn where both begin at once.
    pub fn next_window(&self) -> (window: Window)
        ensures
            window == self.spec_next_window(),
    {
        let dawn = Window::Dawn {
            start: self.attributes.next_dawn,
            end: self.attributes.next_rising,
        };
        let dusk = Window::Dusk {
            start: self.attributes.next_dusk,
            end: self.attributes.next_setting,
        };
        if dawn.start() <= dusk.start() {
            dawn
        } else {
            dusk
        }
    }
}

} // verus!
