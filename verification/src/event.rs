//! The input monitors: debounced state machines over the button line and
//! the charger line, which turn raw level changes into events.

use vstd::prelude::*;

use crate::time::{elapsed_between, ticks_since};

verus! {

/// A debounced input event, as the mode controller receives it.
#[derive(Clone, Copy, Debug, PartialEq, Eq, Structural)]
pub enum Event {
    ButtonPress,
    ButtonHold,
    ButtonRelease,
    ChargerPluggedIn,
    ChargerUnplugged,
}

/// A level of a digital input line.
#[derive(Clone, Copy, Debug, PartialEq, Eq, Structural)]
pub enum Level {
    Low,
    High,
}

/// What woke a monitor from its wait.
#[derive(Clone, Copy, Debug, PartialEq, Eq, Structural)]
pub enum Wake {
    /// The line reached the level that the monitor waited for.
    Edge,
    /// The deadline of the hold timer passed.
    HoldTimer,
    /// The exit signal was given.
    Exit,
}

/// The button: held since a point in time, or not held.
#[derive(Clone, Copy, Debug, PartialEq, Eq, Structural)]
pub enum ButtonState {
    Held(u64),
    NotHeld,
}

/// The charger: plugged in or not.
#[derive(Clone, Copy, Debug, PartialEq, Eq, Structural)]
pub enum ChargerState {
    PluggedIn,
    Unplugged,
}

/// Ticks for which the button is held before a hold is reported: 1500 ms.
pub const BUTTON_HOLD_TIME: u64 = 1_500_000;

/// Ticks that lie between two accepted changes of the button: 1 ms.
pub const BUTTON_DEBOUNCE_TIME: u64 = 1_000;

/// Ticks that lie between two accepted changes of the charger: 10 ms.
pub const CHARGER_DEBOUNCE_TIME: u64 = 10_000;

impl ButtonState {
    pub open spec fn held(self) -> bool {
        self is Held
    }

    /// The state on the other side of a level change at the time `now`.
    pub open spec fn flipped(self, now: u64) -> ButtonState {
        match self {
            ButtonState::Held(_) => ButtonState::NotHeld,
            ButtonState::NotHeld => ButtonState::Held(now),
        }
    }

    /// The level that ends this state. The button pulls its line low while
    /// it is pressed.
    pub open spec fn leaving_level(self) -> Level {
        match self {
            ButtonState::Held(_) => Level::High,
            ButtonState::NotHeld => Level::Low,
        }
    }

    /// The time at which a hold that began with this state is reported.
    pub open spec fn deadline(self) -> Option<u64> {
        match self {
            ButtonState::Held(start) => Some(
                if start + BUTTON_HOLD_TIME > u64::MAX {
                    u64::MAX
                } else {
                    (start + BUTTON_HOLD_TIME) as u64
                },
            ),
            ButtonState::NotHeld => None,
        }
    }

    /// The event that reports the change into this state.
    pub open spec fn entered(self) -> Event {
        match self {
            ButtonState::Held(_) => Event::ButtonPress,
            ButtonState::NotHeld => Event::ButtonRelease,
        }
    }

    pub fn is_held(&self) -> (held: bool)
        ensures
            held == self.held(),
    {
        match self {
            ButtonState::Held(_) => true,
            ButtonState::NotHeld => false,
        }
    }

    /// The level to wait for in this state, and the state that follows once
    /// the line has reached it at the time `now`.
    pub fn wait(&self, now: u64) -> (next: (Level, ButtonState))
        ensures
            next == (self.leaving_level(), self.flipped(now)),
    {
        match self {
            ButtonState::Held(_) => (Level::High, ButtonState::NotHeld),
            ButtonState::NotHeld => (Level::Low, ButtonState::Held(now)),
        }
    }

    /// The time at which the hold timer of this state runs out; a button
    /// that is not held has no such time.
    pub fn hold_timer(&self) -> (at: Option<u64>)
        ensures
            at == self.deadline(),
    {
        match self {
            ButtonState::Held(start) => Some(
                if *start > u64::MAX - BUTTON_HOLD_TIME {
                    u64::MAX
                } else {
                    *start + BUTTON_HOLD_TIME
                },
            ),
            ButtonState::NotHeld => None,
        }
    }
}

impl ChargerState {
    pub open spec fn plugged_in(self) -> bool {
        self is PluggedIn
    }

    /// The state on the other side of a level change.
    pub open spec fn flipped(self) -> ChargerState {
        match self {
            ChargerState::PluggedIn => ChargerState::Unplugged,
            ChargerState::Unplugged => ChargerState::PluggedIn,
        }
    }

    /// The level that ends this state. The charger pulls its line high
    /// while it is present.
    pub open spec fn leaving_level(self) -> Level {
        match self {
            ChargerState::PluggedIn => Level::Low,
            ChargerState::Unplugged => Level::High,
        }
    }

    /// The event that reports the change into this state.
    pub open spec fn entered(self) -> Event {
        match self {
            ChargerState::PluggedIn => Event::ChargerPluggedIn,
            ChargerState::Unplugged => Event::ChargerUnplugged,
        }
    }

    pub fn is_plugged_in(&self) -> (plugged: bool)
        ensures
            plugged == self.plugged_in(),
    {
        match self {
            ChargerState::PluggedIn => true,
            ChargerState::Unplugged => false,
        }
    }

    /// The level to wait for in this state, and the state that follows once
    /// the line has reached it.
    pub fn wait(&self) -> (next: (Level, ChargerState))
        ensures
            next == (self.leaving_level(), self.flipped()),
    {
        match self {
            ChargerState::PluggedIn => (Level::Low, ChargerState::Unplugged),
            ChargerState::Unplugged => (Level::High, ChargerState::PluggedIn),
        }
    }
}

/// The monitor of the button line.
#[derive(Clone, Copy, Debug, PartialEq, Eq, Structural)]
pub struct ButtonMonitor {
    /// The state that the monitor itself is in: it decides which level the
    /// monitor waits for, and when the hold timer runs out.
    pub expected: ButtonState,
    /// The state that was last made known to the rest of the device.
    pub published: ButtonState,
    /// The time of the last change that was accepted.
    pub last_event: u64,
    /// Whether the hold of the present state was already reported.
    pub hold_reported: bool,
}

/// What a monitor of the button asks for after it woke up.
#[derive(Clone, Copy, Debug, PartialEq, Eq, Structural)]
pub struct ButtonReaction {
    /// The event to publish, if any.
    pub event: Option<Event>,
    /// The state to make known, where it changed.
    pub state: Option<ButtonState>,
    /// Whether to pass the exit signal on and stop.
    pub exit: bool,
}

impl ButtonMonitor {
    /// The monitor after the wake-up `wake` at the time `now`, and what it
    /// asks for.
    ///
    /// A level change flips the state that the monitor is in. It is
    /// accepted, published and made known where at least the debounce time
    /// has passed since the last accepted change, and dropped otherwise.
    /// The hold timer reports a hold once for every state, and not before
    /// its deadline.
    pub open spec fn woken(self, wake: Wake, now: u64) -> (ButtonMonitor, ButtonReaction) {
        match wake {
            Wake::Edge => {
                let next = self.expected.flipped(now);
                if ticks_since(self.last_event, now) < BUTTON_DEBOUNCE_TIME {
                    (
                        ButtonMonitor { expected: next, hold_reported: false, ..self },
                        ButtonReaction { event: None, state: None, exit: false },
                    )
                } else {
                    (
                        ButtonMonitor {
                            expected: next,
                            published: next,
                            last_event: now,
                            hold_reported: false,
                        },
                        ButtonReaction {
                            event: Some(next.entered()),
                            state: Some(next),
                            exit: false,
                        },
                    )
                }
            },
            Wake::HoldTimer => {
                if self.hold_due(now) {
                    (
                        ButtonMonitor { hold_reported: true, ..self },
                        ButtonReaction {
                            event: Some(Event::ButtonHold),
                            state: None,
                            exit: false,
                        },
                    )
                } else {
                    (self, ButtonReaction { event: None, state: None, exit: false })
                }
            },
            Wake::Exit => (self, ButtonReaction { event: None, state: None, exit: true }),
        }
    }

    /// Whether a hold is to be reported at the time `now`: the button has
    /// been held for the hold time, and this was not reported yet.
    pub open spec fn hold_due(self, now: u64) -> bool {
        !self.hold_reported && (self.expected matches ButtonState::Held(start) && now - start
            >= BUTTON_HOLD_TIME)
    }

    /// The time at which the hold timer runs out, where it is running.
    pub open spec fn timer(self) -> Option<u64> {
        if self.hold_reported {
            None
        } else {
            self.expected.deadline()
        }
    }

    /// The monitor at the time `now`, with the line at the level `level`.
    pub fn new(level: Level, now: u64) -> (monitor: Self)
        ensures
            monitor.expected == match level {
                Level::High => ButtonState::NotHeld,
                Level::Low => ButtonState::Held(now),
            },
            monitor.published == monitor.expected,
            monitor.last_event == now,
            !monitor.hold_reported,
    {
        let state = match level {
            Level::High => ButtonState::NotHeld,
            Level::Low => ButtonState::Held(now),
        };
        ButtonMonitor { expected: state, published: state, last_event: now, hold_reported: false }
    }

    /// The level that the monitor waits for.
    pub fn awaited_level(&self) -> (level: Level)
        ensures
            level == self.expected.leaving_level(),
    {
        self.expected.wait(0).0
    }

    /// The time at which the hold timer runs out, where it is running.
    pub fn hold_deadline(&self) -> (at: Option<u64>)
        ensures
            at == self.timer(),
    {
        if self.hold_reported {
            None
        } else {
            self.expected.hold_timer()
        }
    }
}

/// One turn of the button monitor: takes the wake-up `wake` at the time
/// `now` and says what to publish.
pub fn button_input(monitor: &mut ButtonMonitor, wake: Wake, now: u64) -> (reaction: ButtonReaction)
    ensures
        (*final(monitor), reaction) == old(monitor).woken(wake, now),
{
    match wake {
        Wake::Edge => {
            let next = monitor.expected.wait(now).1;
            monitor.expected = next;
            monitor.hold_reported = false;
            if elapsed_between(monitor.last_event, now) < BUTTON_DEBOUNCE_TIME {
                ButtonReaction { event: None, state: None, exit: false }
            } else {
                monitor.last_event = now;
                monitor.published = next;
                let event = match next {
                    ButtonState::Held(_) => Event::ButtonPress,
                    ButtonState::NotHeld => Event::ButtonRelease,
                };
                ButtonReaction { event: Some(event), state: Some(next), exit: false }
            }
        },
        Wake::HoldTimer => {
            let due = match monitor.expected {
                ButtonState::Held(start) => now >= start && now - start >= BUTTON_HOLD_TIME,
                ButtonState::NotHeld => false,
            };
            if due && !monitor.hold_reported {
                monitor.hold_reported = true;
                ButtonReaction { event: Some(Event::ButtonHold), state: None, exit: false }
            } else {
                ButtonReaction { event: None, state: None, exit: false }
            }
        },
        Wake::Exit => ButtonReaction { event: None, state: None, exit: true },
    }
}

/// The monitor of the charger line.
#[derive(Clone, Copy, Debug, PartialEq, Eq, Structural)]
pub struct ChargerMonitor {
    /// The state that the monitor itself is in: it decides which level the
    /// monitor waits for.
    pub expected: ChargerState,
    /// The state that was last made known to the rest of the device.
    pub published: ChargerState,
    /// The time of the last change that was accepted.
    pub last_event: u64,
}

/// What a monitor of the charger asks for after it woke up.
#[derive(Clone, Copy, Debug, PartialEq, Eq, Structural)]
pub struct ChargerReaction {
    /// The event to publish, if any.
    pub event: Option<Event>,
    /// The state to make known, where it changed.
    pub state: Option<ChargerState>,
    /// Whether to pass the exit signal on and stop.
    pub exit: bool,
}

impl ChargerMonitor {
    /// The monitor after the wake-up `wake` at the time `now`, and what it
    /// asks for. The charger has no hold timer: its wake-up changes nothing.
    pub open spec fn woken(self, wake: Wake, now: u64) -> (ChargerMonitor, ChargerReaction) {
        match wake {
            Wake::Edge => {
                let next = self.expected.flipped();
                if ticks_since(self.last_event, now) < CHARGER_DEBOUNCE_TIME {
                    (
                        ChargerMonitor { expected: next, ..self },
                        ChargerReaction { event: None, state: None, exit: false },
                    )
                } else {
                    (
                        ChargerMonitor { expected: next, published: next, last_event: now },
                        ChargerReaction {
                            event: Some(next.entered()),
                            state: Some(next),
                            exit: false,
                        },
                    )
                }
            },
            Wake::HoldTimer => (self, ChargerReaction { event: None, state: None, exit: false }),
            Wake::Exit => (self, ChargerReaction { event: None, state: None, exit: true }),
        }
    }

    /// The monitor at the time `now`, with the line at the level `level`.
    pub fn new(level: Level, now: u64) -> (monitor: Self)
        ensures
            monitor.expected == match level {
                Level::High => ChargerState::PluggedIn,
                Level::Low => ChargerState::Unplugged,
            },
            monitor.published == monitor.expected,
            monitor.last_event == now,
    {
        let state = match level {
            Level::High => ChargerState::PluggedIn,
            Level::Low => ChargerState::Unplugged,
        };
        ChargerMonitor { expected: state, published: state, last_event: now }
    }

    /// The level that the monitor waits for.
    pub fn awaited_level(&self) -> (level: Level)
        ensures
            level == self.expected.leaving_level(),
    {
        self.expected.wait().0
    }
}

/// One turn of the charger monitor: takes the wake-up `wake` at the time
/// `now` and says what to publish.
pub fn charger_input(monitor: &mut ChargerMonitor, wake: Wake, now: u64) -> (reaction:
    ChargerReaction)
    ensures
        (*final(monitor), reaction) == old(monitor).woken(wake, now),
{
    match wake {
        Wake::Edge => {
            let next = monitor.expected.wait().1;
            monitor.expected = next;
            if elapsed_between(monitor.last_event, now) < CHARGER_DEBOUNCE_TIME {
                ChargerReaction { event: None, state: None, exit: false }
            } else {
                monitor.last_event = now;
                monitor.published = next;
                let event = match next {
                    ChargerState::PluggedIn => Event::ChargerPluggedIn,
                    ChargerState::Unplugged => Event::ChargerUnplugged,
                };
                ChargerReaction { event: Some(event), state: Some(next), exit: false }
            }
        },
        Wake::HoldTimer => ChargerReaction { event: None, state: None, exit: false },
        Wake::Exit => ChargerReaction { event: None, state: None, exit: true },
    }
}

/// The monitor after level changes at each of `times`, in turn.
pub open spec fn after_edges(monitor: ButtonMonitor, times: Seq<u64>) -> ButtonMonitor
    decreases times.len(),
{
    if times.len() == 0 {
        monitor
    } else {
        after_edges(monitor.woken(Wake::Edge, times.first()).0, times.drop_first())
    }
}

/// The events that level changes at each of `times`, in turn, make the
/// monitor publish.
pub open spec fn edge_events(monitor: ButtonMonitor, times: Seq<u64>) -> Seq<Event>
    decreases times.len(),
{
    if times.len() == 0 {
        Seq::empty()
    } else {
        let (next, reaction) = monitor.woken(Wake::Edge, times.first());
        let rest = edge_events(next, times.drop_first());
        match reaction.event {
            Some(event) => seq![event] + rest,
            None => rest,
        }
    }
}

/// The number of holds that the monitor reports when its hold timer wakes
/// it at each of `times`, in turn, with no level change in between.
pub open spec fn holds_reported(monitor: ButtonMonitor, times: Seq<u64>) -> nat
    decreases times.len(),
{
    if times.len() == 0 {
        0
    } else {
        let (next, reaction) = monitor.woken(Wake::HoldTimer, times.first());
        holds_reported(next, times.drop_first()) + if reaction.event == Some(Event::ButtonHold) {
            1nat
        } else {
            0nat
        }
    }
}

/// Of two level changes of the button that lie closer together than the
/// debounce time, the second is dropped where the first was accepted: it
/// publishes no event and leaves the known state as it was.
pub proof fn lemma_button_debounce(monitor: ButtonMonitor, first: u64, second: u64)
    requires
        first <= second,
        second - first < BUTTON_DEBOUNCE_TIME,
        monitor.woken(Wake::Edge, first).1.event is Some,
    ensures
        ({
            let accepted = monitor.woken(Wake::Edge, first).0;
            let (dropped, reaction) = accepted.woken(Wake::Edge, second);
            &&& reaction.event is None
            &&& reaction.state is None
            &&& dropped.published == accepted.published
            &&& dropped.last_event == first
        }),
{
}

/// However many level changes of the button follow an accepted one within
/// the debounce time, none of them is published, and the known state stays
/// that of the accepted change.
pub proof fn lemma_button_window(monitor: ButtonMonitor, times: Seq<u64>)
    requires
        forall|i: int|
            0 <= i < times.len() ==> ticks_since(monitor.last_event, #[trigger] times[i])
                < BUTTON_DEBOUNCE_TIME,
    ensures
        edge_events(monitor, times) == Seq::<Event>::empty(),
        after_edges(monitor, times).published == monitor.published,
        after_edges(monitor, times).last_event == monitor.last_event,
    decreases times.len(),
{
    if times.len() > 0 {
        let next = monitor.woken(Wake::Edge, times.first()).0;
        assert(times[0] == times.first());
        assert forall|i: int| 0 <= i < times.drop_first().len() implies ticks_since(
            next.last_event,
            #[trigger] times.drop_first()[i],
        ) < BUTTON_DEBOUNCE_TIME by {
            assert(times.drop_first()[i] == times[i + 1]);
        }
        lemma_button_window(next, times.drop_first());
    }
}

/// Of two level changes of the charger that lie closer together than the
/// debounce time, the second is dropped where the first was accepted.
pub proof fn lemma_charger_debounce(monitor: ChargerMonitor, first: u64, second: u64)
    requires
        first <= second,
        second - first < CHARGER_DEBOUNCE_TIME,
        monitor.woken(Wake::Edge, first).1.event is Some,
    ensures
        ({
            let accepted = monitor.woken(Wake::Edge, first).0;
            let (dropped, reaction) = accepted.woken(Wake::Edge, second);
            &&& reaction.event is None
            &&& reaction.state is None
            &&& dropped.published == accepted.published
            &&& dropped.last_event == first
        }),
{
}

/// A hold is never reported before its deadline, 1500 ms after the state
/// began.
pub proof fn lemma_hold_not_early(monitor: ButtonMonitor, start: u64, now: u64)
    requires
        monitor.expected == ButtonState::Held(start),
        now < start + BUTTON_HOLD_TIME,
    ensures
        monitor.woken(Wake::HoldTimer, now).1.event is None,
{
}

/// While the button stays held, its hold is reported exactly once, however
/// often the hold timer wakes the monitor, if one of the wake-ups lies at
/// or behind the deadline; and not at all if none does.
pub proof fn lemma_single_hold(monitor: ButtonMonitor, times: Seq<u64>)
    requires
        monitor.expected is Held,
    ensures
        holds_reported(monitor, times) == if !monitor.hold_reported && exists|i: int|
            0 <= i < times.len() && #[trigger] times[i] >= monitor.expected->Held_0
                + BUTTON_HOLD_TIME {
            1nat
        } else {
            0nat
        },
    decreases times.len(),
{
    if times.len() > 0 {
        let at = monitor.expected->Held_0 + BUTTON_HOLD_TIME;
        let next = monitor.woken(Wake::HoldTimer, times.first()).0;
        let rest = times.drop_first();
        lemma_single_hold(next, rest);
        assert(times[0] == times.first());
        if exists|i: int| 0 <= i < rest.len() && #[trigger] rest[i] >= at {
            let i = choose|i: int| 0 <= i < rest.len() && #[trigger] rest[i] >= at;
            assert(times[i + 1] == rest[i]);
        }
        if exists|i: int| 0 <= i < times.len() && #[trigger] times[i] >= at {
            let i = choose|i: int| 0 <= i < times.len() && #[trigger] times[i] >= at;
            if i > 0 {
                assert(rest[i - 1] == times[i]);
            }
        }
    }
}

} // verus!
