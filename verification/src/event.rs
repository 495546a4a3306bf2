//! The closed set of events that two peers exchange.

use vstd::prelude::*;

verus! {

/// What an [`Event`] is, over plain sequences of characters.
pub enum EventModel {
    Connected(Seq<char>),
    Disconnected(Seq<char>),
    Chat(Seq<char>, Seq<char>),
}

/// One message between peers. Each travels alone on a stream of its own.
#[derive(Clone, Debug, PartialEq, Eq)]
pub enum Event {
    /// A session was established; holds the announcing peer's session id.
    Connected(String),
    /// A session was torn down; holds the leaving peer's session id.
    Disconnected(String),
    /// A message a user wrote: the sender's session id, then the content.
    Chat(String, String),
}

impl View for Event {
    type V = EventModel;

    open spec fn view(&self) -> EventModel {
        match self {
            Event::Connected(id) => EventModel::Connected(id@),
            Event::Disconnected(id) => EventModel::Disconnected(id@),
            Event::Chat(sender, content) => EventModel::Chat(sender@, content@),
        }
    }
}

/// The line shown for an event, as a sequence of characters.
pub open spec fn line_of(event: EventModel) -> Seq<char> {
    match event {
        EventModel::Connected(id) => id + " connected."@,
        EventModel::Disconnected(id) => id + " disconnected."@,
        EventModel::Chat(sender, content) => sender + ": "@ + content,
    }
}

impl Event {
    /// The session id of the peer that the event is attributed to.
    pub fn peer(&self) -> (id: &String)
        ensures
            id@ == (match self@ {
                EventModel::Connected(p) => p,
                EventModel::Disconnected(p) => p,
                EventModel::Chat(p, _) => p,
            }),
    {
        match self {
            Event::Connected(p) => p,
            Event::Disconnected(p) => p,
            Event::Chat(p, _) => p,
        }
    }

    /// The line a plain-text front end shows for the event.
    pub fn line(&self) -> (text: String)
        ensures
            text@ == line_of(self@),
    {
        match self {
            Event::Connected(id) => {
                let mut text = id.clone();
                text.append(" connected.");
                text
            },
            Event::Disconnected(id) => {
                let mut text = id.clone();
                text.append(" disconnected.");
                text
            },
            Event::Chat(sender, content) => {
                let mut text = sender.clone();
                text.append(": ");
                text.append(content.as_str());
                text
            },
        }
    }
}

} // verus!
