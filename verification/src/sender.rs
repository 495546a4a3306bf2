//! The sender: one event, one fresh outbound stream. The stream is opened,
//! the whole encoding is written, and the end of the stream is signalled.
//! Nothing is retried: the first failure ends the send and is reported.

use vstd::prelude::*;
use crate::event::Event;
use crate::event::EventModel;
use crate::receiver::{message_model, Fault, MAX_MESSAGE_BYTES};
use crate::wire::{encode, wire_text};

verus! {

/// Why a send did not complete.
#[derive(Clone, Copy, Debug, PartialEq, Eq)]
pub enum SendError {
    /// The event could not be encoded; no stream was opened.
    Encode,
    /// The outbound stream could not be opened.
    Open,
    /// The bytes could not be written in full.
    Write,
    /// The end of the stream could not be signalled.
    Finish,
}

/// Where a send stands.
#[derive(Clone, Copy, Debug, PartialEq, Eq)]
pub enum SendPhase {
    /// A stream is to be opened.
    Opening,
    /// The stream is open and the payload is to be written.
    Writing,
    /// The payload is written and the end of the stream is to be signalled.
    Finishing,
    /// The event is on the wire.
    Sent,
    /// The send failed, for this reason.
    Failed(SendError),
}

/// What a send asks for next.
#[derive(Clone, Copy, Debug, PartialEq, Eq)]
pub enum SendAction {
    /// Open a new outbound stream.
    OpenStream,
    /// Write the whole payload to the stream.
    WritePayload,
    /// Signal the end of the stream.
    FinishStream,
    /// Return this result to the caller.
    Return(Result<(), SendError>),
}

/// The phase after the pending transport call was reported as done
/// (`succeeded`) or failed.
pub open spec fn send_next(phase: SendPhase, succeeded: bool) -> SendPhase {
    match phase {
        SendPhase::Opening => if succeeded { SendPhase::Writing } else { SendPhase::Failed(SendError::Open) },
        SendPhase::Writing => if succeeded { SendPhase::Finishing } else { SendPhase::Failed(SendError::Write) },
        SendPhase::Finishing => if succeeded { SendPhase::Sent } else { SendPhase::Failed(SendError::Finish) },
        SendPhase::Sent => phase,
        SendPhase::Failed(_) => phase,
    }
}

/// What a phase asks for.
pub open spec fn send_pending(phase: SendPhase) -> SendAction {
    match phase {
        SendPhase::Opening => SendAction::OpenStream,
        SendPhase::Writing => SendAction::WritePayload,
        SendPhase::Finishing => SendAction::FinishStream,
        SendPhase::Sent => SendAction::Return(Ok(())),
        SendPhase::Failed(why) => SendAction::Return(Err(why)),
    }
}

/// The phase reached from `phase` after the transport calls reported in
/// `outcomes`, in order.
pub open spec fn send_after(phase: SendPhase, outcomes: Seq<bool>) -> SendPhase
    decreases outcomes.len(),
{
    if outcomes.len() == 0 {
        phase
    } else {
        send_next(send_after(phase, outcomes.drop_last()), outcomes.last())
    }
}

/// One send in progress: the bytes to put on the stream and the phase.
#[derive(Debug)]
pub struct Outbound {
    payload: Vec<u8>,
    phase: SendPhase,
}

impl Outbound {
    /// The bytes that go on the stream.
    pub closed spec fn payload_model(&self) -> Seq<u8> {
        self.payload@
    }

    /// Where the send stands.
    pub closed spec fn phase_model(&self) -> SendPhase {
        self.phase
    }

    /// Starts a send: encodes the event, and asks for a stream. Encoding
    /// does not fail, so a send always starts. A payload within the size
    /// limit is one that the receiving loop decodes to this very event.
    pub fn begin(event: &Event) -> (started: Result<Outbound, SendError>)
        ensures
            started is Ok,
            match started {
                Ok(send) => {
                    &&& send.payload_model() == wire_text(event@)
                    &&& send.phase_model() == SendPhase::Opening
                    &&& send.payload_model().len() <= MAX_MESSAGE_BYTES ==> message_model(
                        send.payload_model(),
                    ) == Ok::<EventModel, Fault>(event@)
                },
                Err(why) => why == SendError::Encode,
            },
    {
        match encode(event) {
            Ok(payload) => Ok(Outbound { payload, phase: SendPhase::Opening }),
            Err(_) => Err(SendError::Encode),
        }
    }

    /// The bytes to write, the same at every phase.
    pub fn payload(&self) -> (bytes: &Vec<u8>)
        ensures
            bytes@ == self.payload_model(),
    {
        &self.payload
    }

    /// Where the send stands.
    pub fn phase(&self) -> (phase: SendPhase)
        ensures
            phase == self.phase_model(),
    {
        self.phase
    }

    /// What to do now.
    pub fn pending(&self) -> (action: SendAction)
        ensures
            action == send_pending(self.phase_model()),
    {
        match self.phase {
            SendPhase::Opening => SendAction::OpenStream,
            SendPhase::Writing => SendAction::WritePayload,
            SendPhase::Finishing => SendAction::FinishStream,
            SendPhase::Sent => SendAction::Return(Ok(())),
            SendPhase::Failed(why) => SendAction::Return(Err(why)),
        }
    }

    /// Reports whether the pending transport call succeeded, and says what
    /// to do now. The payload never changes.
    pub fn advance(&mut self, succeeded: bool) -> (action: SendAction)
        ensures
            final(self).phase_model() == send_next(old(self).phase_model(), succeeded),
            final(self).payload_model() == old(self).payload_model(),
            action == send_pending(final(self).phase_model()),
    {
        let next = match self.phase {
            SendPhase::Opening => if succeeded {
                SendPhase::Writing
            } else {
                SendPhase::Failed(SendError::Open)
            },
            SendPhase::Writing => if succeeded {
                SendPhase::Finishing
            } else {
                SendPhase::Failed(SendError::Write)
            },
            SendPhase::Finishing => if succeeded {
                SendPhase::Sent
            } else {
                SendPhase::Failed(SendError::Finish)
            },
            SendPhase::Sent => SendPhase::Sent,
            SendPhase::Failed(why) => SendPhase::Failed(why),
        };
        self.phase = next;
        self.pending()
    }
}

/// Unfolds `send_after` by its first report instead of its last.
pub proof fn lemma_send_after_first(phase: SendPhase, outcomes: Seq<bool>)
    requires
        outcomes.len() > 0,
    ensures
        send_after(phase, outcomes) == send_after(send_next(phase, outcomes[0]), outcomes.drop_first()),
    decreases outcomes.len(),
{
    if outcomes.len() == 1 {
        assert(outcomes.drop_last() =~= Seq::<bool>::empty());
        assert(outcomes.drop_first() =~= Seq::<bool>::empty());
    } else {
        lemma_send_after_first(phase, outcomes.drop_last());
        assert(outcomes.drop_last().drop_first() =~= outcomes.drop_first().drop_last());
    }
}

/// A send that has ended, well or badly, stays as it ended: nothing is
/// retried.
pub proof fn lemma_send_ends_once(phase: SendPhase, outcomes: Seq<bool>)
    requires
        phase is Sent || phase is Failed,
    ensures
        send_after(phase, outcomes) == phase,
    decreases outcomes.len(),
{
    if outcomes.len() > 0 {
        lemma_send_ends_once(phase, outcomes.drop_last());
    }
}

/// A send succeeds exactly when opening, writing and finishing all
/// succeeded, in that order; otherwise the first of them that failed names
/// the error.
pub proof fn lemma_send_outcome(outcomes: Seq<bool>)
    requires
        outcomes.len() >= 3,
    ensures
        send_after(SendPhase::Opening, outcomes) == (if !outcomes[0] {
            SendPhase::Failed(SendError::Open)
        } else if !outcomes[1] {
            SendPhase::Failed(SendError::Write)
        } else if !outcomes[2] {
            SendPhase::Failed(SendError::Finish)
        } else {
            SendPhase::Sent
        }),
{
    let opened = send_next(SendPhase::Opening, outcomes[0]);
    let after_open = outcomes.drop_first();
    lemma_send_after_first(SendPhase::Opening, outcomes);
    let written = send_next(opened, after_open[0]);
    let after_write = after_open.drop_first();
    lemma_send_after_first(opened, after_open);
    let finished = send_next(written, after_write[0]);
    lemma_send_after_first(written, after_write);
    assert(finished is Sent || finished is Failed);
    lemma_send_ends_once(finished, after_write.drop_first());
}

} // verus!
