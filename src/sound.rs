//! The sound worker: owns the MIDI connection for one run, turns each record
//! into a pair of note messages, and silences both voices when its queue closes.
use vstd::prelude::*;
use crate::fields::texts;
use crate::translate::{Policy, translated, control_values};

verus! {

/// The MIDI status byte of a note-on message on channel one.
pub const NOTE_ON: u8 = 0x90;

/// The note of the first voice (C3).
pub const VOICE_LOW: u8 = 60;

/// The note of the second voice (G3).
pub const VOICE_HIGH: u8 = 67;

/// One three-byte MIDI message: status, note and velocity.
#[derive(Clone, Copy, Debug, PartialEq, Eq, Structural)]
pub struct NoteMessage {
    pub status: u8,
    pub note: u8,
    pub velocity: u8,
}

impl NoteMessage {
    /// The bytes sent to the device.
    pub fn to_bytes(&self) -> (r: [u8; 3])
        ensures
            r@ == seq![self.status, self.note, self.velocity],
    {
        let r = [self.status, self.note, self.velocity];
        assert(r@ =~= seq![self.status, self.note, self.velocity]);
        r
    }
}

/// Where a sound worker stands in its run.
#[derive(Clone, Copy, Debug, PartialEq, Eq, Structural)]
pub enum SoundState {
    /// Waiting to learn how many output ports the device offers.
    Discovering,
    /// Waiting for the connection to the first port.
    Connecting,
    /// Connected; turning records into notes.
    Streaming,
    /// Done; nothing more is sent.
    Finished,
}

/// What the surrounding loop reports to a sound worker.
#[derive(Clone, Debug)]
pub enum SoundEvent {
    /// The MIDI output could not be created.
    OutputUnavailable,
    /// The MIDI output offers `count` ports.
    PortsListed { count: usize },
    /// The connection to the first port was made.
    Connected,
    /// The connection to the first port failed.
    ConnectFailed,
    /// A record arrived on the queue.
    Received(Vec<String>),
    /// The queue's producer side is gone.
    QueueClosed,
}

/// What a sound worker asks the surrounding loop to do next.
#[derive(Clone, Copy, Debug, PartialEq, Eq, Structural)]
pub enum SoundAction {
    /// Connect to the first listed port.
    ConnectFirstPort,
    /// Send both messages, in order, then wait for the next record; a failed
    /// send is logged and does not end the run.
    Send(NoteMessage, NoteMessage),
    /// Send both messages, in order and best effort, then end the run.
    SendAndFinish(NoteMessage, NoteMessage),
    /// End the run.
    Finish,
    /// Wait for the next record.
    Receive,
}

pub open spec fn note_on(note: u8, velocity: u8) -> NoteMessage {
    NoteMessage { status: NOTE_ON, note, velocity }
}

/// The note pair that a record plays: field 0 drives the low voice, field 1
/// the high one.
pub open spec fn activation(fields: Seq<Seq<char>>, policy: Policy) -> (NoteMessage, NoteMessage) {
    (
        note_on(VOICE_LOW, translated(fields, 0, policy) as u8),
        note_on(VOICE_HIGH, translated(fields, 1, policy) as u8),
    )
}

/// The note pair that silences both voices.
pub open spec fn deactivation() -> (NoteMessage, NoteMessage) {
    (note_on(VOICE_LOW, 0), note_on(VOICE_HIGH, 0))
}

/// The next state and action of a sound worker in `state` on `event`. An event
/// that does not fit the state ends the run.
pub open spec fn sound_step(state: SoundState, policy: Policy, event: SoundEvent) -> (
    SoundState,
    SoundAction,
) {
    match (state, event) {
        (SoundState::Discovering, SoundEvent::PortsListed { count }) => if count > 0 {
            (SoundState::Connecting, SoundAction::ConnectFirstPort)
        } else {
            (SoundState::Finished, SoundAction::Finish)
        },
        (SoundState::Connecting, SoundEvent::Connected) => (
            SoundState::Streaming,
            SoundAction::Receive,
        ),
        (SoundState::Streaming, SoundEvent::Received(fields)) => {
            let pair = activation(texts(fields@), policy);
            (SoundState::Streaming, SoundAction::Send(pair.0, pair.1))
        },
        (SoundState::Streaming, SoundEvent::QueueClosed) => {
            let pair = deactivation();
            (SoundState::Finished, SoundAction::SendAndFinish(pair.0, pair.1))
        },
        _ => (SoundState::Finished, SoundAction::Finish),
    }
}

/// The actions of a sound worker that starts in `state` and sees `events`.
pub open spec fn sound_run(state: SoundState, policy: Policy, events: Seq<SoundEvent>) -> Seq<
    SoundAction,
>
    decreases events.len(),
{
    if events.len() == 0 {
        Seq::empty()
    } else {
        let (next, action) = sound_step(state, policy, events[0]);
        seq![action] + sound_run(next, policy, events.drop_first())
    }
}

/// The decisions of one sound worker run.
pub struct SoundWorker {
    pub state: SoundState,
    pub policy: Policy,
}

impl SoundWorker {
    /// A worker at the start of a run, before the ports are listed.
    pub fn new(policy: Policy) -> (r: SoundWorker)
        ensures
            r.state == SoundState::Discovering,
            r.policy == policy,
    {
        SoundWorker { state: SoundState::Discovering, policy }
    }

    /// Takes in one event and says what to do next.
    pub fn step(&mut self, event: SoundEvent) -> (action: SoundAction)
        ensures
            final(self).policy == old(self).policy,
            (final(self).state, action) == sound_step(old(self).state, old(self).policy, event),
    {
        match (self.state, event) {
            (SoundState::Discovering, SoundEvent::PortsListed { count }) => {
                if count > 0 {
                    self.state = SoundState::Connecting;
                    SoundAction::ConnectFirstPort
                } else {
                    self.state = SoundState::Finished;
                    SoundAction::Finish
                }
            },
            (SoundState::Connecting, SoundEvent::Connected) => {
                self.state = SoundState::Streaming;
                SoundAction::Receive
            },
            (SoundState::Streaming, SoundEvent::Received(fields)) => {
                let (low, high) = control_values(&fields, self.policy);
                SoundAction::Send(
                    NoteMessage { status: NOTE_ON, note: VOICE_LOW, velocity: low },
                    NoteMessage { status: NOTE_ON, note: VOICE_HIGH, velocity: high },
                )
            },
            (SoundState::Streaming, SoundEvent::QueueClosed) => {
                self.state = SoundState::Finished;
                SoundAction::SendAndFinish(
                    NoteMessage { status: NOTE_ON, note: VOICE_LOW, velocity: 0 },
                    NoteMessage { status: NOTE_ON, note: VOICE_HIGH, velocity: 0 },
                )
            },
            _ => {
                self.state = SoundState::Finished;
                SoundAction::Finish
            },
        }
    }

    /// Whether the run is over.
    pub fn is_finished(&self) -> (r: bool)
        ensures
            r == (self.state == SoundState::Finished),
    {
        self.state == SoundState::Finished
    }
}

/// Once finished, a sound worker stays finished and sends nothing, whatever it
/// is told.
pub proof fn law_finished_is_silent(policy: Policy, events: Seq<SoundEvent>)
    ensures
        sound_run(SoundState::Finished, policy, events).len() == events.len(),
        forall|i: int|
            0 <= i < events.len() ==> #[trigger] sound_run(SoundState::Finished, policy, events)[i]
                == SoundAction::Finish,
    decreases events.len(),
{
    if events.len() > 0 {
        law_finished_is_silent(policy, events.drop_first());
    }
}

/// When its queue closes, a streaming sound worker sends exactly one pair of
/// note-off messages, ends its run, and sends nothing after that.
pub proof fn law_close_silences_once(policy: Policy, later: Seq<SoundEvent>)
    ensures
        ({
            let actions = sound_run(SoundState::Streaming, policy, seq![SoundEvent::QueueClosed] + later);
            &&& actions.len() == later.len() + 1
            &&& actions[0] == SoundAction::SendAndFinish(deactivation().0, deactivation().1)
            &&& forall|i: int| 1 <= i < actions.len() ==> #[trigger] actions[i] == SoundAction::Finish
        }),
{
    let events = seq![SoundEvent::QueueClosed] + later;
    assert(events.drop_first() =~= later);
    law_finished_is_silent(policy, later);
    let actions = sound_run(SoundState::Streaming, policy, events);
    assert forall|i: int| 1 <= i < actions.len() implies #[trigger] actions[i] == SoundAction::Finish by {
        assert(actions[i] == sound_run(SoundState::Finished, policy, later)[i - 1]);
    }
}

/// The note pair sent for a record.
pub open spec fn played(policy: Policy, fields: Vec<String>) -> SoundAction {
    let pair = activation(texts(fields@), policy);
    SoundAction::Send(pair.0, pair.1)
}

/// A streaming sound worker plays the records it receives in the order they
/// arrive, one note pair for each, and keeps streaming.
pub proof fn law_records_play_in_order(policy: Policy, records: Seq<Vec<String>>)
    ensures
        sound_run(
            SoundState::Streaming,
            policy,
            records.map_values(|r: Vec<String>| SoundEvent::Received(r)),
        ) == records.map_values(|r: Vec<String>| played(policy, r)),
    decreases records.len(),
{
    let events = records.map_values(|r: Vec<String>| SoundEvent::Received(r));
    if records.len() > 0 {
        law_records_play_in_order(policy, records.drop_first());
        assert(events.drop_first() =~= records.drop_first().map_values(
            |r: Vec<String>| SoundEvent::Received(r),
        ));
        assert(sound_run(SoundState::Streaming, policy, events) =~= records.map_values(
            |r: Vec<String>| played(policy, r),
        ));
    } else {
        assert(sound_run(SoundState::Streaming, policy, events) =~= records.map_values(
            |r: Vec<String>| played(policy, r),
        ));
    }
}

} // verus!
