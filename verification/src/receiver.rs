//! The receiver loop: accept a stream, read it to its end, decode the event,
//! hand it to the observer, and listen again. The loop's decisions are the
//! function [`step`]; the program around it performs each action on the
//! transport and reports what came of it.

use vstd::prelude::*;
use crate::event::{Event, EventModel};
use crate::wire::{decode, decode_model, DecodeError};

verus! {

/// The largest message, in bytes, that a stream may carry.
pub const MAX_MESSAGE_BYTES: usize = 8192;

/// A protocol violation that the loop cannot recover from.
#[derive(Clone, Copy, Debug, PartialEq, Eq)]
pub enum Fault {
    /// The transport failed while accepting or reading, and not because the
    /// session was closed.
    Transport,
    /// A stream carried more than [`MAX_MESSAGE_BYTES`] bytes.
    TooLarge,
    /// A stream's bytes stand for no event.
    Decode(DecodeError),
}

/// Why the loop ended.
#[derive(Clone, Copy, Debug, PartialEq, Eq)]
pub enum LoopEnd {
    /// The session was closed on purpose: the normal way out.
    Orderly,
    /// The loop met a fault, which its caller must not swallow.
    Faulted(Fault),
}

/// Where the loop stands.
#[derive(Clone, Copy, Debug, PartialEq, Eq)]
pub enum Phase {
    /// Waiting for the next inbound stream.
    Listening,
    /// A stream was accepted and is being read.
    Decoding,
    /// An event was decoded and the observer is handling it.
    Dispatching,
    /// The loop is over.
    Stopped(LoopEnd),
}

/// What the transport or the observer reports back to the loop.
#[derive(Clone, Debug, PartialEq, Eq)]
pub enum Input {
    /// An inbound stream arrived.
    Accepted,
    /// The pending accept or read was cut short because the session closed.
    SessionClosed,
    /// The pending accept or read failed for another reason.
    TransportFailed,
    /// The stream held more bytes than the limit it was read with.
    Oversized,
    /// The stream was read to its end and held these bytes.
    Message(Vec<u8>),
    /// The observer has handled the event.
    Dispatched,
}

/// What the loop asks for next.
#[derive(Clone, Debug, PartialEq, Eq)]
pub enum Action {
    /// Accept the next inbound stream.
    Accept,
    /// Read the accepted stream to its end, allowing at most this many bytes.
    Read(usize),
    /// Hand this event to the observer.
    Dispatch(Event),
    /// Leave the loop for this reason.
    Stop(LoopEnd),
    /// The report did not fit the phase and was ignored.
    Ignore,
}

/// What an [`Action`] is, with the event as its model.
pub enum ActionModel {
    Accept,
    Read(usize),
    Dispatch(EventModel),
    Stop(LoopEnd),
    Ignore,
}

impl View for Action {
    type V = ActionModel;

    open spec fn view(&self) -> ActionModel {
        match self {
            Action::Accept => ActionModel::Accept,
            Action::Read(limit) => ActionModel::Read(*limit),
            Action::Dispatch(event) => ActionModel::Dispatch(event@),
            Action::Stop(end) => ActionModel::Stop(*end),
            Action::Ignore => ActionModel::Ignore,
        }
    }
}

/// What the bytes of one stream amount to: the event they stand for, or the
/// fault they are. Size is judged first.
pub open spec fn message_model(text: Seq<u8>) -> Result<EventModel, Fault> {
    if text.len() > MAX_MESSAGE_BYTES {
        Err(Fault::TooLarge)
    } else {
        match decode_model(text) {
            Ok(event) => Ok(event),
            Err(why) => Err(Fault::Decode(why)),
        }
    }
}

/// The model of a received message.
pub open spec fn received_view(result: Result<Event, Fault>) -> Result<EventModel, Fault> {
    match result {
        Ok(event) => Ok(event@),
        Err(fault) => Err(fault),
    }
}

/// The phase after `input` arrives in `phase`.
pub open spec fn next_phase(phase: Phase, input: Input) -> Phase {
    match (phase, input) {
        (Phase::Listening, Input::Accepted) => Phase::Decoding,
        (Phase::Listening, Input::SessionClosed) => Phase::Stopped(LoopEnd::Orderly),
        (Phase::Listening, Input::TransportFailed) => Phase::Stopped(LoopEnd::Faulted(Fault::Transport)),
        (Phase::Decoding, Input::SessionClosed) => Phase::Stopped(LoopEnd::Orderly),
        (Phase::Decoding, Input::TransportFailed) => Phase::Stopped(LoopEnd::Faulted(Fault::Transport)),
        (Phase::Decoding, Input::Oversized) => Phase::Stopped(LoopEnd::Faulted(Fault::TooLarge)),
        (Phase::Decoding, Input::Message(text)) => match message_model(text@) {
            Ok(_) => Phase::Dispatching,
            Err(fault) => Phase::Stopped(LoopEnd::Faulted(fault)),
        },
        (Phase::Dispatching, Input::Dispatched) => Phase::Listening,
        _ => phase,
    }
}

/// The action that the loop asks for when `input` arrives in `phase`.
pub open spec fn action_model(phase: Phase, input: Input) -> ActionModel {
    match (phase, input) {
        (Phase::Stopped(end), _) => ActionModel::Stop(end),
        (Phase::Decoding, Input::Message(text)) => match message_model(text@) {
            Ok(event) => ActionModel::Dispatch(event),
            Err(fault) => ActionModel::Stop(LoopEnd::Faulted(fault)),
        },
        (Phase::Listening, Input::Accepted) => ActionModel::Read(MAX_MESSAGE_BYTES),
        (Phase::Dispatching, Input::Dispatched) => ActionModel::Accept,
        _ => match next_phase(phase, input) {
            Phase::Stopped(end) => ActionModel::Stop(end),
            _ => ActionModel::Ignore,
        },
    }
}

/// Judges the bytes of one stream: too large, undecodable, or an event.
pub fn receive(text: &[u8]) -> (result: Result<Event, Fault>)
    ensures
        received_view(result) == message_model(text@),
        result == Err::<Event, Fault>(Fault::TooLarge) <==> text@.len() > MAX_MESSAGE_BYTES,
{
    if text.len() > MAX_MESSAGE_BYTES {
        return Err(Fault::TooLarge);
    }
    match decode(text) {
        Ok(event) => Ok(event),
        Err(why) => Err(Fault::Decode(why)),
    }
}

impl Phase {
    /// How the loop ended, if it has.
    pub fn ended(&self) -> (end: Option<LoopEnd>)
        ensures
            end == (match *self {
                Phase::Stopped(why) => Some(why),
                _ => None::<LoopEnd>,
            }),
    {
        match self {
            Phase::Stopped(why) => Some(*why),
            _ => None,
        }
    }
}

/// The phase in which a new loop starts, and the first thing it asks for.
pub fn start() -> (out: (Phase, Action))
    ensures
        out.0 == Phase::Listening,
        out.1@ == ActionModel::Accept,
{
    (Phase::Listening, Action::Accept)
}

/// One decision of the loop: the next phase and what to do, given where the
/// loop stands and what was reported.
pub fn step(phase: Phase, input: Input) -> (out: (Phase, Action))
    ensures
        out.0 == next_phase(phase, input),
        out.1@ == action_model(phase, input),
{
    match phase {
        Phase::Stopped(end) => (phase, Action::Stop(end)),
        Phase::Listening => match input {
            Input::Accepted => (Phase::Decoding, Action::Read(MAX_MESSAGE_BYTES)),
            Input::SessionClosed => stop(LoopEnd::Orderly),
            Input::TransportFailed => stop(LoopEnd::Faulted(Fault::Transport)),
            _ => (phase, Action::Ignore),
        },
        Phase::Decoding => match input {
            Input::SessionClosed => stop(LoopEnd::Orderly),
            Input::TransportFailed => stop(LoopEnd::Faulted(Fault::Transport)),
            Input::Oversized => stop(LoopEnd::Faulted(Fault::TooLarge)),
            Input::Message(text) => match receive(text.as_slice()) {
                Ok(event) => (Phase::Dispatching, Action::Dispatch(event)),
                Err(fault) => stop(LoopEnd::Faulted(fault)),
            },
            _ => (phase, Action::Ignore),
        },
        Phase::Dispatching => match input {
            Input::Dispatched => (Phase::Listening, Action::Accept),
            _ => (phase, Action::Ignore),
        },
    }
}

/// The end of the loop for the reason `end`.
fn stop(end: LoopEnd) -> (out: (Phase, Action))
    ensures
        out.0 == Phase::Stopped(end),
        out.1@ == ActionModel::Stop(end),
{
    (Phase::Stopped(end), Action::Stop(end))
}

/// What a whole session amounts to, given the bytes of the streams that
/// arrive, in order, before the session is closed: the events dispatched,
/// and how the loop ends. The first stream that is a fault ends the loop;
/// the events before it stay dispatched, and no later stream is looked at.
pub open spec fn session_model(streams: Seq<Seq<u8>>) -> (Seq<EventModel>, LoopEnd)
    decreases streams.len(),
{
    if streams.len() == 0 {
        (Seq::empty(), LoopEnd::Orderly)
    } else {
        let (events, end) = session_model(streams.drop_last());
        match (end, message_model(streams.last())) {
            (LoopEnd::Orderly, Ok(event)) => (events.push(event), LoopEnd::Orderly),
            (LoopEnd::Orderly, Err(fault)) => (events, LoopEnd::Faulted(fault)),
            (LoopEnd::Faulted(_), _) => (events, end),
        }
    }
}

/// The byte sequences that `streams` holds.
pub open spec fn stream_views(streams: Seq<Vec<u8>>) -> Seq<Seq<u8>> {
    Seq::new(streams.len(), |i: int| streams[i]@)
}

/// The models of `events`.
pub open spec fn event_views(events: Seq<Event>) -> Seq<EventModel> {
    Seq::new(events.len(), |i: int| events[i]@)
}

/// Runs the loop over the streams of a whole session, which is closed
/// after the last of them: takes each stream through [`step`] and hands
/// back the events that were to be dispatched, in order, and how the loop
/// ended.
pub fn receive_session(streams: &Vec<Vec<u8>>) -> (out: (Vec<Event>, LoopEnd))
    ensures
        (event_views(out.0@), out.1) == session_model(stream_views(streams@)),
{
    let mut events: Vec<Event> = Vec::new();
    let mut i: usize = 0;
    let (mut phase, _) = start();
    let ghost all = stream_views(streams@);
    assert(all.take(0) =~= Seq::<Seq<u8>>::empty());
    assert(event_views(events@) =~= Seq::<EventModel>::empty());
    while i < streams.len()
        invariant
            i <= streams.len(),
            phase == Phase::Listening,
            all == stream_views(streams@),
            (event_views(events@), LoopEnd::Orderly) == session_model(all.take(i as int)),
        decreases streams.len() - i,
    {
        proof {
            assert(all.take(i + 1).drop_last() =~= all.take(i as int));
            assert(all.take(i + 1).last() == streams@[i as int]@);
        }
        let ghost before = event_views(events@);
        let (reading, _) = step(phase, Input::Accepted);
        let text = streams[i].clone();
        assert(text@ =~= streams@[i as int]@);
        let (judged, action) = step(reading, Input::Message(text));
        if let Some(end) = judged.ended() {
            proof {
                lemma_fault_is_final(all.take(i + 1), all);
            }
            return (events, end);
        }
        if let Action::Dispatch(event) = action {
            events.push(event);
            assert(event_views(events@) =~= before.push(event@));
        }
        let (listening, _) = step(judged, Input::Dispatched);
        phase = listening;
        i = i + 1;
    }
    assert(all.take(i as int) =~= all);
    let (closed, _) = step(phase, Input::SessionClosed);
    match closed.ended() {
        Some(end) => (events, end),
        None => (events, LoopEnd::Orderly),
    }
}

/// Once the loop has met a fault, the streams that follow change nothing.
pub proof fn lemma_fault_is_final(seen: Seq<Seq<u8>>, streams: Seq<Seq<u8>>)
    requires
        seen.len() <= streams.len(),
        seen =~= streams.take(seen.len() as int),
        session_model(seen).1 is Faulted,
    ensures
        session_model(streams) == session_model(seen),
    decreases streams.len(),
{
    if seen.len() < streams.len() {
        assert(streams.drop_last().take(seen.len() as int) =~= seen);
        lemma_fault_is_final(seen, streams.drop_last());
    } else {
        assert(seen =~= streams);
    }
}

/// The phase reached from `phase` after the reports `inputs`, in order.
pub open spec fn phase_after(phase: Phase, inputs: Seq<Input>) -> Phase
    decreases inputs.len(),
{
    if inputs.len() == 0 {
        phase
    } else {
        next_phase(phase_after(phase, inputs.drop_last()), inputs.last())
    }
}

/// Closing the session while the loop waits for a stream ends the loop in
/// that very step, and the end counts as orderly, not as a fault.
pub proof fn lemma_close_ends_listening()
    ensures
        next_phase(Phase::Listening, Input::SessionClosed) == Phase::Stopped(LoopEnd::Orderly),
        action_model(Phase::Listening, Input::SessionClosed) == ActionModel::Stop(LoopEnd::Orderly),
{
}

/// A loop that has stopped stays stopped, for the same reason, whatever is
/// reported to it afterwards.
pub proof fn lemma_stopped_is_final(end: LoopEnd, inputs: Seq<Input>)
    ensures
        phase_after(Phase::Stopped(end), inputs) == Phase::Stopped(end),
    decreases inputs.len(),
{
    if inputs.len() > 0 {
        lemma_stopped_is_final(end, inputs.drop_last());
    }
}

/// The loop has no way out but a stop: every phase other than `Stopped`
/// is left only towards the next phase of the cycle or towards `Stopped`.
pub proof fn lemma_cycle(phase: Phase, input: Input)
    ensures
        phase is Listening ==> next_phase(phase, input) is Listening
            || next_phase(phase, input) is Decoding || next_phase(phase, input) is Stopped,
        phase is Decoding ==> next_phase(phase, input) is Decoding
            || next_phase(phase, input) is Dispatching || next_phase(phase, input) is Stopped,
        phase is Dispatching ==> next_phase(phase, input) is Dispatching
            || next_phase(phase, input) is Listening,
        next_phase(phase, input) is Stopped && !(phase is Stopped) ==> action_model(phase, input)
            == ActionModel::Stop(next_phase(phase, input)->Stopped_0),
{
}

/// One stream that holds an event takes the loop once round its cycle:
/// from listening through decoding and dispatching back to listening, with
/// that event handed to the observer.
pub proof fn lemma_one_stream_one_cycle(message: Input)
    requires
        message is Message,
        message_model(message->Message_0@) is Ok,
    ensures
        next_phase(Phase::Listening, Input::Accepted) == Phase::Decoding,
        action_model(Phase::Listening, Input::Accepted) == ActionModel::Read(MAX_MESSAGE_BYTES),
        next_phase(Phase::Decoding, message) == Phase::Dispatching,
        action_model(Phase::Decoding, message) == ActionModel::Dispatch(
            message_model(message->Message_0@)->Ok_0,
        ),
        next_phase(Phase::Dispatching, Input::Dispatched) == Phase::Listening,
        action_model(Phase::Dispatching, Input::Dispatched) == ActionModel::Accept,
{
}

/// What the loop does with the bytes of one stream depends on those bytes
/// alone: two events that arrive on two streams are each decoded by
/// itself, in whichever order the streams are accepted.
pub proof fn lemma_streams_are_independent(first: Seq<u8>, second: Seq<u8>)
    requires
        message_model(first) is Ok,
        message_model(second) is Ok,
    ensures
        session_model(seq![first, second]) == (
            seq![message_model(first)->Ok_0, message_model(second)->Ok_0],
            LoopEnd::Orderly,
        ),
        session_model(seq![second, first]) == (
            seq![message_model(second)->Ok_0, message_model(first)->Ok_0],
            LoopEnd::Orderly,
        ),
{
    lemma_two_streams(first, second);
    lemma_two_streams(second, first);
}

/// Unfolds `session_model` over two streams that both hold an event.
proof fn lemma_two_streams(a: Seq<u8>, b: Seq<u8>)
    requires
        message_model(a) is Ok,
        message_model(b) is Ok,
    ensures
        session_model(seq![a, b]) == (seq![message_model(a)->Ok_0, message_model(b)->Ok_0], LoopEnd::Orderly),
{
    let both = seq![a, b];
    let one = seq![a];
    assert(both.drop_last() =~= one);
    assert(one.drop_last() =~= Seq::<Seq<u8>>::empty());
    assert(session_model(one.drop_last()) == (Seq::<EventModel>::empty(), LoopEnd::Orderly));
    assert(session_model(one).0 =~= seq![message_model(a)->Ok_0]);
    assert(session_model(one).1 == LoopEnd::Orderly);
    assert(session_model(both).0 =~= seq![message_model(a)->Ok_0, message_model(b)->Ok_0]);
}

} // verus!
