//! The schedule: which transition is waited for, what is done next, and what
//! was handled last.
//!
//! The scheduler decides and never waits. Each decision is an `Action` for
//! the caller to perform; the caller hands back what came of it as an
//! `Input`, together with the current time.

use vstd::prelude::*;
use crate::sun::{Event, EventKind};

verus! {

/// How long before a transition the camera is first looked at: 45 minutes,
/// in milliseconds.
pub const NEAR_WINDOW_MILLIS: u64 = 2_700_000;

/// How long the schedule rests after the hub reported a transition that has
/// already passed: five seconds, in milliseconds.
pub const PAUSE_MILLIS: u64 = 5_000;

/// What the scheduler is waiting for.
#[derive(Clone, Copy, Debug, PartialEq, Eq, Structural)]
pub enum Phase {
    /// No transition is in hand: the hub is being asked for the next ones,
    /// or the schedule rests before asking again.
    Idle,
    /// Asleep until the window before the transition opens.
    AwaitingEvent(Event),
    /// Inside the window, asleep between two looks at the camera.
    WaitingNearEvent(Event),
    /// A frame of the camera is being fetched and classified.
    ConfirmingTransition(Event),
    /// The transition was seen; the hub is being told.
    Dispatching(Event),
}

/// What the caller reports back.
#[derive(Clone, Copy, Debug)]
pub enum Input {
    /// A sleep has ended; also the way to start.
    Woke,
    /// The hub's next transitions, in the order in which to handle them.
    Events([Event; 2]),
    /// Whether the camera's night vision is on in the frame just taken.
    Sample(bool),
    /// The hub has accepted the event that was sent.
    Dispatched,
}

/// What the caller is to do next.
#[derive(Clone, Copy, Debug, PartialEq, Eq, Structural)]
pub enum Action {
    /// Ask the hub for the next transitions and report `Input::Events`.
    FetchEvents,
    /// Sleep for this many milliseconds and report `Input::Woke`.
    Sleep(u64),
    /// Take a frame of the camera, classify it and report `Input::Sample`.
    SampleCamera,
    /// Send the hub event that belongs to this transition and report
    /// `Input::Dispatched`.
    Dispatch(Event),
}

/// The state of a schedule.
pub struct SchedulerView {
    /// The kind of the transition that was dispatched last, if any was.
    pub last_handled: Option<EventKind>,
    pub phase: Phase,
    /// The transitions of this cycle that are still to come after the one
    /// in hand.
    pub rest: Seq<Event>,
}

/// Whether a frame confirms a transition: a sunrise once night vision is
/// off, a sunset once it is on.
pub open spec fn confirms(event: Event, night_vision: bool) -> bool {
    match event.spec_kind() {
        EventKind::Sunrise => !night_vision,
        EventKind::Sunset => night_vision,
    }
}

/// The transition that a phase has in hand.
pub open spec fn in_hand(phase: Phase) -> Option<Event> {
    match phase {
        Phase::Idle => None,
        Phase::AwaitingEvent(event) => Some(event),
        Phase::WaitingNearEvent(event) => Some(event),
        Phase::ConfirmingTransition(event) => Some(event),
        Phase::Dispatching(event) => Some(event),
    }
}

/// Takes up the transitions of `queue` in order, at the instant `now`.
///
/// One of the kind that was handled last is passed over. One that is not in
/// the future ends the cycle: the others are dropped and the schedule
/// pauses. One further away than the window is slept towards, for the time
/// that remains until the window opens; a nearer one is looked for at once.
/// With nothing left the hub is asked again.
pub open spec fn take_up(last_handled: Option<EventKind>, queue: Seq<Event>, now: i64) -> (
    SchedulerView,
    Action,
)
    decreases queue.len(),
{
    if queue.len() == 0 {
        (SchedulerView { last_handled, phase: Phase::Idle, rest: Seq::empty() }, Action::FetchEvents)
    } else {
        let event = queue[0];
        let until = event.spec_millis_until(now);
        if last_handled == Some(event.spec_kind()) {
            take_up(last_handled, queue.drop_first(), now)
        } else if until <= 0 {
            (
                SchedulerView { last_handled, phase: Phase::Idle, rest: Seq::empty() },
                Action::Sleep(PAUSE_MILLIS),
            )
        } else if until > NEAR_WINDOW_MILLIS {
            (
                SchedulerView {
                    last_handled,
                    phase: Phase::AwaitingEvent(event),
                    rest: queue.drop_first(),
                },
                Action::Sleep((until - NEAR_WINDOW_MILLIS) as u64),
            )
        } else {
            (
                SchedulerView {
                    last_handled,
                    phase: Phase::ConfirmingTransition(event),
                    rest: queue.drop_first(),
                },
                Action::SampleCamera,
            )
        }
    }
}

/// The state that follows `state` on `input` at the instant `now`, and the
/// action that goes with it; none where the phase does not wait for that
/// input.
pub open spec fn transition(state: SchedulerView, interval_millis: u64, input: Input, now: i64)
    -> Option<(SchedulerView, Action)> {
    match (state.phase, input) {
        (Phase::Idle, Input::Woke) => Some((state, Action::FetchEvents)),
        (Phase::Idle, Input::Events(events)) => Some(take_up(state.last_handled, events@, now)),
        (Phase::AwaitingEvent(event), Input::Woke) => Some(
            (
                SchedulerView { phase: Phase::ConfirmingTransition(event), ..state },
                Action::SampleCamera,
            ),
        ),
        (Phase::WaitingNearEvent(event), Input::Woke) => Some(
            (
                SchedulerView { phase: Phase::ConfirmingTransition(event), ..state },
                Action::SampleCamera,
            ),
        ),
        (Phase::ConfirmingTransition(event), Input::Sample(night_vision)) => Some(
            if confirms(event, night_vision) {
                (
                    SchedulerView { phase: Phase::Dispatching(event), ..state },
                    Action::Dispatch(event),
                )
            } else {
                (
                    SchedulerView { phase: Phase::WaitingNearEvent(event), ..state },
                    Action::Sleep(interval_millis),
                )
            },
        ),
        (Phase::Dispatching(event), Input::Dispatched) => Some(
            take_up(Some(event.spec_kind()), state.rest, now),
        ),
        _ => None,
    }
}

impl SchedulerView {
    /// What holds of every state that a schedule reaches: the transition in
    /// hand is not of the kind that was handled last, and nothing is queued
    /// while none is in hand.
    pub open spec fn wf(&self) -> bool {
        &&& in_hand(self.phase) matches Some(event) ==> self.last_handled != Some(
            event.spec_kind(),
        )
        &&& self.phase == Phase::Idle ==> self.rest.len() == 0
    }
}

/// What a schedule is set up with.
#[derive(Clone, Debug)]
pub struct Config {
    /// Seconds between two looks at the camera.
    pub interval: u16,
    /// The hub event that is sent once a sunset is seen.
    pub night_event: String,
    /// The hub event that is sent once a sunrise is seen.
    pub day_event: String,
}

impl Config {
    /// The time between two looks at the camera, in milliseconds.
    pub open spec fn interval_millis(&self) -> u64 {
        (self.interval * 1000) as u64
    }
}

impl Default for Config {
    /// A look every 30 seconds; `close_rollershutters` at night and
    /// `open_rollershutters` by day.
    fn default() -> (config: Config)
        ensures
            config.interval == 30,
            config.night_event@ == "close_rollershutters"@,
            config.day_event@ == "open_rollershutters"@,
    {
        Config {
            interval: 30,
            night_event: String::from_str("close_rollershutters"),
            day_event: String::from_str("open_rollershutters"),
        }
    }
}

/// The input was not the one that the phase waits for.
#[derive(Clone, Copy, Debug, PartialEq, Eq, Structural)]
pub struct Unexpected {
    pub phase: Phase,
}

/// The state of a schedule, as it is kept.
#[derive(Debug)]
struct Progress {
    last_handled: Option<EventKind>,
    phase: Phase,
    rest: Vec<Event>,
}

impl Progress {
    closed spec fn model(&self) -> SchedulerView {
        SchedulerView { last_handled: self.last_handled, phase: self.phase, rest: self.rest@ }
    }

    #[verifier::type_invariant]
    closed spec fn sound(&self) -> bool {
        self.model().wf()
    }

    /// The same state in another phase with the same transition in hand.
    fn moved_to(&self, phase: Phase) -> (moved: Progress)
        requires
            in_hand(phase) == in_hand(self.model().phase),
            phase != Phase::Idle,
        ensures
            moved.model() == (SchedulerView { phase, ..self.model() }),
    {
        proof {
            use_type_invariant(self);
        }
        let rest: Vec<Event> = self.rest.clone();
        assert(rest@ =~= self.rest@);
        Progress { last_handled: self.last_handled, phase, rest }
    }

    /// Takes up the transitions of `queue` from position `from` on.
    fn take_up(last_handled: Option<EventKind>, queue: &Vec<Event>, from: usize, now: i64) -> (taken:
        (Progress, Action))
        requires
            from <= queue@.len(),
        ensures
            (taken.0.model(), taken.1) == take_up(last_handled, queue@.skip(from as int), now),
    {
        let mut i: usize = from;
        while i < queue.len()
            invariant
                from <= i <= queue@.len(),
                take_up(last_handled, queue@.skip(i as int), now) == take_up(
                    last_handled,
                    queue@.skip(from as int),
                    now,
                ),
            decreases queue@.len() - i,
        {
            let event = queue[i];
            proof {
                assert(queue@.skip(i as int)[0] == event);
                assert(queue@.skip(i as int).drop_first() =~= queue@.skip(i + 1));
            }
            if handled_last(last_handled, event.kind()) {
                i = i + 1;
            } else {
                let until: i128 = event.millis_until(now);
                if until <= 0 {
                    return (
                        Progress { last_handled, phase: Phase::Idle, rest: Vec::new() },
                        Action::Sleep(PAUSE_MILLIS),
                    );
                }
                let mut rest: Vec<Event> = Vec::new();
                let mut j: usize = i + 1;
                while j < queue.len()
                    invariant
                        i + 1 <= j <= queue@.len(),
                        rest@ == queue@.subrange(i + 1, j as int),
                    decreases queue@.len() - j,
                {
                    rest.push(queue[j]);
                    proof {
                        assert(rest@ =~= queue@.subrange(i + 1, j + 1));
                    }
                    j = j + 1;
                }
                proof {
                    assert(rest@ =~= queue@.skip(i + 1));
                }
                if until > NEAR_WINDOW_MILLIS as i128 {
                    return (
                        Progress { last_handled, phase: Phase::AwaitingEvent(event), rest },
                        Action::Sleep((until - NEAR_WINDOW_MILLIS as i128) as u64),
                    );
                } else {
                    return (
                        Progress { last_handled, phase: Phase::ConfirmingTransition(event), rest },
                        Action::SampleCamera,
                    );
                }
            }
        }
        proof {
            assert(queue@.skip(i as int).len() == 0);
        }
        (Progress { last_handled, phase: Phase::Idle, rest: Vec::new() }, Action::FetchEvents)
    }
}

/// Whether a transition of this kind was the last one dispatched.
fn handled_last(last_handled: Option<EventKind>, kind: EventKind) -> (handled: bool)
    ensures
        handled == (last_handled == Some(kind)),
{
    match last_handled {
        Some(last) => last == kind,
        None => false,
    }
}

/// A schedule: its configuration and its state.
#[derive(Debug)]
pub struct Scheduler {
    config: Config,
    progress: Progress,
}

impl View for Scheduler {
    type V = SchedulerView;

    closed spec fn view(&self) -> SchedulerView {
        self.progress.model()
    }
}

impl Scheduler {
    pub closed spec fn config(&self) -> Config {
        self.config
    }

    /// A schedule that has handled nothing and holds nothing: report
    /// `Input::Woke` to start it.
    pub fn new(config: Config) -> (scheduler: Scheduler)
        ensures
            scheduler.config() == config,
            scheduler@ == (SchedulerView {
                last_handled: None,
                phase: Phase::Idle,
                rest: Seq::empty(),
            }),
            scheduler@.wf(),
    {
        Scheduler {
            config,
            progress: Progress { last_handled: None, phase: Phase::Idle, rest: Vec::new() },
        }
    }

    /// The phase that the schedule is in; its state is well-formed at all
    /// times.
    pub fn phase(&self) -> (phase: Phase)
        ensures
            phase == self@.phase,
            self@.wf(),
    {
        proof {
            use_type_invariant(&self.progress);
        }
        self.progress.phase
    }

    /// The kind of the transition that was dispatched last, if any was.
    pub fn last_handled(&self) -> (kind: Option<EventKind>)
        ensures
            kind == self@.last_handled,
    {
        self.progress.last_handled
    }

    /// The hub event that belongs to a kind of transition: the night event
    /// to a sunset, the day event to a sunrise.
    pub fn hub_event(&self, kind: EventKind) -> (name: &String)
        ensures
            name@ == (match kind {
                EventKind::Sunset => self.config().night_event@,
                EventKind::Sunrise => self.config().day_event@,
            }),
    {
        match kind {
            EventKind::Sunset => &self.config.night_event,
            EventKind::Sunrise => &self.config.day_event,
        }
    }

    /// Takes what the caller reports and decides what is done next.
    ///
    /// Where the phase waits for this input, the schedule moves on as
    /// `transition` says and the action is returned. Any other input is
    /// refused, and the schedule stays as it is.
    pub fn step(&mut self, input: Input, now: i64) -> (result: Result<Action, Unexpected>)
        ensures
            final(self).config() == old(self).config(),
            final(self)@.wf(),
            match transition(old(self)@, old(self).config().interval_millis(), input, now) {
                Some((state, action)) => final(self)@ == state && result == Ok::<
                    Action,
                    Unexpected,
                >(action),
                None => final(self)@ == old(self)@ && result == Err::<Action, Unexpected>(
                    Unexpected { phase: old(self)@.phase },
                ),
            },
    {
        proof {
            use_type_invariant(&self.progress);
        }
        let (progress, action) = match (self.progress.phase, input) {
            (Phase::Idle, Input::Woke) => {
                return Ok(Action::FetchEvents);
            },
            (Phase::Idle, Input::Events(events)) => {
                let mut queue: Vec<Event> = Vec::new();
                queue.push(events[0]);
                queue.push(events[1]);
                proof {
                    assert(queue@ =~= events@);
                    assert(queue@.skip(0) =~= queue@);
                }
                Progress::take_up(self.progress.last_handled, &queue, 0, now)
            },
            (Phase::AwaitingEvent(event), Input::Woke) => (
                self.progress.moved_to(Phase::ConfirmingTransition(event)),
                Action::SampleCamera,
            ),
            (Phase::WaitingNearEvent(event), Input::Woke) => (
                self.progress.moved_to(Phase::ConfirmingTransition(event)),
                Action::SampleCamera,
            ),
            (Phase::ConfirmingTransition(event), Input::Sample(night_vision)) => {
                let confirmed = match event.kind() {
                    EventKind::Sunrise => !night_vision,
                    EventKind::Sunset => night_vision,
                };
                if confirmed {
                    (self.progress.moved_to(Phase::Dispatching(event)), Action::Dispatch(event))
                } else {
                    (
                        self.progress.moved_to(Phase::WaitingNearEvent(event)),
                        Action::Sleep((self.config.interval as u64) * 1000),
                    )
                }
            },
            (Phase::Dispatching(event), Input::Dispatched) => {
                proof {
                    assert(self.progress.rest@.skip(0) =~= self.progress.rest@);
                }
                Progress::take_up(Some(event.kind()), &self.progress.rest, 0, now)
            },
            (phase, _) => {
                return Err(Unexpected { phase });
            },
        };
        proof {
            use_type_invariant(&progress);
        }
        self.progress = progress;
        Ok(action)
    }
}

/// Taking up a queue leads to a well-formed state, whatever was handled
/// last, and leaves that unchanged.
pub proof fn lemma_take_up_wf(last_handled: Option<EventKind>, queue: Seq<Event>, now: i64)
    ensures
        take_up(last_handled, queue, now).0.wf(),
        take_up(last_handled, queue, now).0.last_handled == last_handled,
    decreases queue.len(),
{
    if queue.len() > 0 {
        lemma_take_up_wf(last_handled, queue.drop_first(), now);
    }
}

/// A transition of the kind that was handled last is passed over: the queue
/// is taken up as if it did not hold it.
pub proof fn lemma_handled_kind_is_skipped(
    last_handled: Option<EventKind>,
    queue: Seq<Event>,
    now: i64,
)
    requires
        queue.len() > 0,
        last_handled == Some(queue[0].spec_kind()),
    ensures
        take_up(last_handled, queue, now) == take_up(last_handled, queue.drop_first(), now),
{
}

/// No kind of transition is dispatched twice in a row: an event that a
/// well-formed schedule dispatches is not of the kind handled last, and once
/// the hub has accepted it, its kind is the one handled last.
pub proof fn lemma_dispatch_alternates(
    state: SchedulerView,
    interval_millis: u64,
    input: Input,
    now: i64,
    later: i64,
)
    requires
        state.wf(),
        transition(state, interval_millis, input, now) matches Some((_, action))
            && action is Dispatch,
    ensures
        ({
            let (next, action) = transition(state, interval_millis, input, now).unwrap();
            let event = action->Dispatch_0;
            &&& state.last_handled != Some(event.spec_kind())
            &&& next.phase == Phase::Dispatching(event)
            &&& transition(next, interval_millis, Input::Dispatched, later) matches Some(
                (after, _),
            ) && after.last_handled == Some(event.spec_kind())
        }),
{
    match (state.phase, input) {
        (Phase::Idle, Input::Events(events)) => {
            lemma_take_up_settles(state.last_handled, events@, now);
        },
        (Phase::Dispatching(event), Input::Dispatched) => {
            lemma_take_up_settles(Some(event.spec_kind()), state.rest, now);
        },
        _ => {},
    }
    let (next, action) = transition(state, interval_millis, input, now).unwrap();
    let event = action->Dispatch_0;
    lemma_take_up_wf(Some(event.spec_kind()), next.rest, later);
}

/// Taking up a queue never dispatches and never sleeps for no time. It ends
/// with a transition in hand only if that one is still to come: asleep
/// exactly until 45 minutes before it where it is further away than that,
/// and looking at the camera otherwise.
pub proof fn lemma_take_up_settles(last_handled: Option<EventKind>, queue: Seq<Event>, now: i64)
    ensures
        ({
            let (state, action) = take_up(last_handled, queue, now);
            &&& !(action is Dispatch)
            &&& action matches Action::Sleep(millis) ==> millis > 0
            &&& in_hand(state.phase) matches Some(event) ==> event.spec_timestamp() > now
            &&& state.phase matches Phase::AwaitingEvent(event) ==> action matches Action::Sleep(
                millis,
            ) && millis == event.spec_timestamp() - now - NEAR_WINDOW_MILLIS
            &&& state.phase matches Phase::ConfirmingTransition(event) ==> action
                is SampleCamera && event.spec_timestamp() - now <= NEAR_WINDOW_MILLIS
            &&& !(state.phase is WaitingNearEvent) && !(state.phase is Dispatching)
        }),
    decreases queue.len(),
{
    if queue.len() > 0 {
        lemma_take_up_settles(last_handled, queue.drop_first(), now);
    }
}

/// A transition that is not in the future is neither slept towards nor
/// looked for: the schedule drops the cycle and pauses, and on waking asks
/// the hub again.
pub proof fn lemma_past_event_pauses(
    state: SchedulerView,
    interval_millis: u64,
    events: [Event; 2],
    now: i64,
    later: i64,
)
    requires
        state.wf(),
        state.phase == Phase::Idle,
        state.last_handled != Some(events[0].spec_kind()),
        events[0].spec_timestamp() <= now,
    ensures
        ({
            let paused = SchedulerView {
                last_handled: state.last_handled,
                phase: Phase::Idle,
                rest: Seq::empty(),
            };
            &&& transition(state, interval_millis, Input::Events(events), now) == Some(
                (paused, Action::Sleep(PAUSE_MILLIS)),
            )
            &&& transition(paused, interval_millis, Input::Woke, later) == Some(
                (paused, Action::FetchEvents),
            )
        }),
{
    assert(events@[0] == events[0]);
}

} // verus!
