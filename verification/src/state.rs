//! The state that the tasks of the device share.

use vstd::prelude::*;

use embassy_sync::blocking_mutex::raw::NoopRawMutex;
use embassy_sync::channel::Channel;

use crate::effect::model::EffectModel;
use crate::effect::{stack_model, Effect};
use crate::event::{ButtonReaction, ButtonState, ChargerReaction, ChargerState, Event};
use crate::power::{Power, PowerState};

verus! {

/// The operational phase of the device.
#[derive(Clone, Copy, Debug, PartialEq, Eq, Structural)]
pub enum Mode {
    PreStartup,
    Startup,
    PreCharging,
    Charging,
    PreMain,
    Main,
    PrePairing,
    Pairing,
    Shutdown,
}

/// Number of events that the queue holds at most.
pub const EVENT_CAPACITY: usize = 10;

/// The bounded queue of events between the monitors and the mode
/// controller: an `embassy_sync::channel::Channel` with room for ten
/// events. The contracts know its contents as `queued_events`.
#[verifier::external_body]
pub struct EventQueue {
    channel: Channel<NoopRawMutex, Event, 10>,
}

/// The events that wait in the queue, oldest first.
pub uninterp spec fn queued_events(queue: EventQueue) -> Seq<Event>;

impl View for EventQueue {
    type V = Seq<Event>;

    open spec fn view(&self) -> Seq<Event> {
        queued_events(*self)
    }
}

/// Makes an empty channel with `Channel::new`.
#[verifier::external_body]
fn channel_new() -> (queue: EventQueue)
    ensures
        queued_events(queue) == Seq::<Event>::empty(),
{
    EventQueue { channel: Channel::new() }
}

/// Calls `Channel::len`: the number of events that wait in the channel,
/// which its capacity bounds.
#[verifier::external_body]
fn channel_len(queue: &EventQueue) -> (len: usize)
    ensures
        len == queued_events(*queue).len(),
        len <= EVENT_CAPACITY,
{
    queue.channel.len()
}

/// Calls `Channel::try_send`: the event goes to the back of the channel
/// unless the channel is full, and then nothing changes.
#[verifier::external_body]
fn channel_try_send(queue: &mut EventQueue, event: Event) -> (sent: bool)
    ensures
        sent == (queued_events(*old(queue)).len() < EVENT_CAPACITY),
        queued_events(*final(queue)) == if sent {
            queued_events(*old(queue)).push(event)
        } else {
            queued_events(*old(queue))
        },
{
    queue.channel.try_send(event).is_ok()
}

/// Calls `Channel::try_receive`: the oldest event leaves the channel and is
/// handed back; of an empty channel nothing comes and nothing changes.
#[verifier::external_body]
fn channel_try_receive(queue: &mut EventQueue) -> (event: Option<Event>)
    ensures
        event == if queued_events(*old(queue)).len() > 0 {
            Some(queued_events(*old(queue)).first())
        } else {
            None
        },
        queued_events(*final(queue)) == if queued_events(*old(queue)).len() > 0 {
            queued_events(*old(queue)).drop_first()
        } else {
            queued_events(*old(queue))
        },
{
    queue.channel.try_receive().ok()
}

impl EventQueue {
    /// An empty queue.
    pub fn new() -> (queue: Self)
        ensures
            queue@ == Seq::<Event>::empty(),
    {
        channel_new()
    }

    /// The number of events that wait.
    pub fn len(&self) -> (len: usize)
        ensures
            len == self@.len(),
            len <= EVENT_CAPACITY,
    {
        channel_len(self)
    }

    /// Whether the queue takes no further event.
    pub fn is_full(&self) -> (full: bool)
        ensures
            full == (self@.len() >= EVENT_CAPACITY),
    {
        channel_len(self) >= EVENT_CAPACITY
    }

    /// Puts `event` behind the events that wait. A full queue takes
    /// nothing, and the result says so: the sender tries again later, and
    /// no event is lost.
    pub fn try_send(&mut self, event: Event) -> (sent: bool)
        ensures
            sent == (old(self)@.len() < EVENT_CAPACITY),
            final(self)@ == if sent {
                old(self)@.push(event)
            } else {
                old(self)@
            },
    {
        channel_try_send(self, event)
    }

    /// Takes the oldest event out of the queue, where there is one.
    pub fn try_receive(&mut self) -> (event: Option<Event>)
        ensures
            event == if old(self)@.len() > 0 {
                Some(old(self)@.first())
            } else {
                None
            },
            final(self)@ == if old(self)@.len() > 0 {
                old(self)@.drop_first()
            } else {
                old(self)@
            },
    {
        channel_try_receive(self)
    }
}

/// The state that the tasks of the device share.
pub struct State {
    pub mode: Mode,
    pub button_state: ButtonState,
    pub charger_state: ChargerState,
    pub events: EventQueue,
    /// Whether the exit signal was given. It is never taken back.
    pub exit: bool,
    pub power: Power,
    pub effect_stack: Vec<Effect>,
}

/// The shared state as a plain value.
pub struct StateModel {
    pub mode: Mode,
    pub button_state: ButtonState,
    pub charger_state: ChargerState,
    pub events: Seq<Event>,
    pub exit: bool,
    pub power: PowerState,
    pub effect_stack: Seq<EffectModel>,
}

impl View for State {
    type V = StateModel;

    open spec fn view(&self) -> StateModel {
        StateModel {
            mode: self.mode,
            button_state: self.button_state,
            charger_state: self.charger_state,
            events: self.events@,
            exit: self.exit,
            power: self.power.state,
            effect_stack: stack_model(self.effect_stack),
        }
    }
}

impl State {
    /// The state of a device that has just booted.
    pub fn initialize() -> (state: Self)
        ensures
            state@ == (StateModel {
                mode: Mode::PreStartup,
                button_state: ButtonState::NotHeld,
                charger_state: ChargerState::Unplugged,
                events: Seq::empty(),
                exit: false,
                power: PowerState::Off,
                effect_stack: Seq::empty(),
            }),
    {
        let state = State {
            mode: Mode::PreStartup,
            button_state: ButtonState::NotHeld,
            charger_state: ChargerState::Unplugged,
            events: EventQueue::new(),
            exit: false,
            power: Power::new(),
            effect_stack: Vec::new(),
        };
        assert(stack_model(state.effect_stack) =~= Seq::empty());
        state
    }

    pub fn get_mode(&self) -> (mode: Mode)
        ensures
            mode == self.mode,
    {
        self.mode
    }

    pub fn set_mode(&mut self, mode: Mode)
        ensures
            final(self)@ == (StateModel { mode, ..old(self)@ }),
    {
        self.mode = mode;
    }

    pub fn get_button_state(&self) -> (state: ButtonState)
        ensures
            state == self.button_state,
    {
        self.button_state
    }

    pub fn get_charger_state(&self) -> (state: ChargerState)
        ensures
            state == self.charger_state,
    {
        self.charger_state
    }

    /// Takes the oldest event out of the queue, where there is one.
    pub fn next_event(&mut self) -> (event: Option<Event>)
        ensures
            event == if old(self)@.events.len() > 0 {
                Some(old(self)@.events.first())
            } else {
                None
            },
            final(self)@ == (StateModel {
                events: if old(self)@.events.len() > 0 {
                    old(self)@.events.drop_first()
                } else {
                    old(self)@.events
                },
                ..old(self)@
            }),
    {
        self.events.try_receive()
    }

    /// Takes in what the button monitor asks for: queues its event, makes
    /// the state of the button known, and passes the exit signal on. Where
    /// the queue is full, nothing is taken in, and the result says so: the
    /// monitor has to come again, and its event is not lost.
    pub fn publish_button(&mut self, reaction: ButtonReaction) -> (done: bool)
        ensures
            done == (reaction.event is None || old(self)@.events.len() < EVENT_CAPACITY),
            final(self)@ == if done {
                StateModel {
                    events: match reaction.event {
                        Some(event) => old(self)@.events.push(event),
                        None => old(self)@.events,
                    },
                    button_state: match reaction.state {
                        Some(state) => state,
                        None => old(self)@.button_state,
                    },
                    exit: old(self)@.exit || reaction.exit,
                    ..old(self)@
                }
            } else {
                old(self)@
            },
    {
        if let Some(event) = reaction.event {
            if !self.events.try_send(event) {
                return false;
            }
        }
        if let Some(state) = reaction.state {
            self.button_state = state;
        }
        if reaction.exit {
            self.exit = true;
        }
        true
    }

    /// Takes in what the charger monitor asks for, as `publish_button` does
    /// for the button.
    pub fn publish_charger(&mut self, reaction: ChargerReaction) -> (done: bool)
        ensures
            done == (reaction.event is None || old(self)@.events.len() < EVENT_CAPACITY),
            final(self)@ == if done {
                StateModel {
                    events: match reaction.event {
                        Some(event) => old(self)@.events.push(event),
                        None => old(self)@.events,
                    },
                    charger_state: match reaction.state {
                        Some(state) => state,
                        None => old(self)@.charger_state,
                    },
                    exit: old(self)@.exit || reaction.exit,
                    ..old(self)@
                }
            } else {
                old(self)@
            },
    {
        if let Some(event) = reaction.event {
            if !self.events.try_send(event) {
                return false;
            }
        }
        if let Some(state) = reaction.state {
            self.charger_state = state;
        }
        if reaction.exit {
            self.exit = true;
        }
        true
    }

    /// Gives the exit signal. Giving it again changes nothing.
    pub fn signal_exit(&mut self)
        ensures
            final(self)@ == (StateModel { exit: true, ..old(self)@ }),
    {
        self.exit = true;
    }
}

} // verus!
