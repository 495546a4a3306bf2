//! The wire form of an event: a JSON object with a single member, whose name
//! is the variant and whose value is the variant's text (for a chat message,
//! the array of sender and content). The JSON text itself is written and
//! read by `serde_json`; this module decides which object stands for which
//! event.

use vstd::prelude::*;
use crate::event::{Event, EventModel};

verus! {

/// The error of `serde_json`, which this module carries through unread.
#[verifier::external_type_specification]
#[verifier::external_body]
pub struct ExJsonError(serde_json::Error);

/// The JSON text that `serde_json` writes for an object with the single
/// member `tag`, whose value is the string `value`.
pub uninterp spec fn member_text(tag: Seq<char>, value: Seq<char>) -> Seq<u8>;

/// The JSON text that `serde_json` writes for an object with the single
/// member `tag`, whose value is the array of the strings `first` and `second`.
pub uninterp spec fn pair_member_text(tag: Seq<char>, first: Seq<char>, second: Seq<char>) -> Seq<u8>;

/// The members that `serde_json` reads from `text` as an object of string
/// values, in key order, a repeated name counted once; `None` where `text`
/// is no such object.
pub uninterp spec fn members_in(text: Seq<u8>) -> Option<Seq<(Seq<char>, Seq<char>)>>;

/// The members that `serde_json` reads from `text` as an object whose values
/// are arrays of two strings, in key order, a repeated name counted once;
/// `None` where `text` is no such object.
pub uninterp spec fn pair_members_in(text: Seq<u8>) -> Option<Seq<(Seq<char>, Seq<char>, Seq<char>)>>;

/// Why a byte sequence stands for no event.
#[derive(Clone, Copy, Debug, PartialEq, Eq)]
pub enum DecodeError {
    /// The bytes are not a JSON object of either shape.
    Malformed,
    /// The bytes are an object, but not one member under a known variant
    /// name with the value that variant takes.
    Unrecognized,
}

/// Why an event could not be turned into bytes.
#[derive(Clone, Copy, Debug, PartialEq, Eq)]
pub enum EncodeError {
    /// The JSON writer reported a failure.
    Writer,
}

/// The members `found`, each as a pair of character sequences.
pub open spec fn member_views(found: Seq<(String, String)>) -> Seq<(Seq<char>, Seq<char>)> {
    Seq::new(found.len(), |i: int| (found[i].0@, found[i].1@))
}

/// The members `found`, each as a triple of character sequences.
pub open spec fn pair_member_views(found: Seq<(String, String, String)>) -> Seq<(Seq<char>, Seq<char>, Seq<char>)> {
    Seq::new(found.len(), |i: int| (found[i].0@, found[i].1@, found[i].2@))
}

/// The bytes that stand for `event` on the wire.
pub open spec fn wire_text(event: EventModel) -> Seq<u8> {
    match event {
        EventModel::Connected(id) => member_text("Connected"@, id),
        EventModel::Disconnected(id) => member_text("Disconnected"@, id),
        EventModel::Chat(sender, content) => pair_member_text("Chat"@, sender, content),
    }
}

/// The event that a pair of readings stands for: `members` is what the text
/// holds read as an object of strings, `pairs` what it holds read as an
/// object of two-string arrays.
pub open spec fn event_of(
    members: Option<Seq<(Seq<char>, Seq<char>)>>,
    pairs: Option<Seq<(Seq<char>, Seq<char>, Seq<char>)>>,
) -> Result<EventModel, DecodeError> {
    if members is Some && members->0.len() == 1 && members->0[0].0 == "Connected"@ {
        Ok(EventModel::Connected(members->0[0].1))
    } else if members is Some && members->0.len() == 1 && members->0[0].0 == "Disconnected"@ {
        Ok(EventModel::Disconnected(members->0[0].1))
    } else if pairs is Some && pairs->0.len() == 1 && pairs->0[0].0 == "Chat"@ {
        Ok(EventModel::Chat(pairs->0[0].1, pairs->0[0].2))
    } else if members is None && pairs is None {
        Err(DecodeError::Malformed)
    } else {
        Err(DecodeError::Unrecognized)
    }
}

/// The event that `text` stands for, or why it stands for none.
pub open spec fn decode_model(text: Seq<u8>) -> Result<EventModel, DecodeError> {
    event_of(members_in(text), pair_members_in(text))
}

/// The model of a decoding result.
pub open spec fn decoded_view(result: Result<Event, DecodeError>) -> Result<EventModel, DecodeError> {
    match result {
        Ok(event) => Ok(event@),
        Err(e) => Err(e),
    }
}

/// Calls `serde_json::to_vec` on a map with the one entry `tag` to `value`.
/// Trusted: the call succeeds, since `serde_json` documents only two causes
/// of failure, a map key that is no string and a value that refuses to be
/// written, and a map from strings to strings has neither; the bytes are the
/// text named `member_text`; and `serde_json` reads that text back as an
/// object of strings with exactly this member.
#[verifier::external_body]
fn write_member(tag: &str, value: &str) -> (out: Result<Vec<u8>, serde_json::Error>)
    ensures
        out is Ok,
        out matches Ok(text) ==> text@ == member_text(tag@, value@),
        out matches Ok(text) ==> members_in(text@) == Some(seq![(tag@, value@)]),
{
    let mut object = std::collections::BTreeMap::new();
    object.insert(tag, value);
    serde_json::to_vec(&object)
}

/// Calls `serde_json::to_vec` on a map with the one entry `tag` to the pair
/// of `first` and `second`, which it writes as an array. Trusted: the call
/// succeeds, for the reason given at `write_member`; the bytes are the text
/// named `pair_member_text`; `serde_json` reads that text back as an object of
/// two-string arrays with exactly this member, and refuses to read it as an
/// object of strings, its value being an array.
#[verifier::external_body]
fn write_pair_member(tag: &str, first: &str, second: &str) -> (out: Result<Vec<u8>, serde_json::Error>)
    ensures
        out is Ok,
        out matches Ok(text) ==> text@ == pair_member_text(tag@, first@, second@),
        out matches Ok(text) ==> pair_members_in(text@) == Some(seq![(tag@, first@, second@)]),
        out matches Ok(text) ==> members_in(text@) is None,
{
    let mut object = std::collections::BTreeMap::new();
    object.insert(tag, (first, second));
    serde_json::to_vec(&object)
}

/// Calls `serde_json::from_slice` for a map from strings to strings and
/// hands its entries out in key order. Trusted: the result is the reading
/// named `members_in`, an error exactly where that is `None`.
#[verifier::external_body]
fn read_members(text: &[u8]) -> (out: Result<Vec<(String, String)>, serde_json::Error>)
    ensures
        match out {
            Ok(found) => members_in(text@) == Some(member_views(found@)),
            Err(_) => members_in(text@) is None,
        },
{
    let object: std::collections::BTreeMap<String, String> = serde_json::from_slice(text)?;
    Ok(object.into_iter().collect())
}

/// Calls `serde_json::from_slice` for a map from strings to pairs of strings
/// and hands its entries out in key order. Trusted: the result is the
/// reading named `pair_members_in`, an error exactly where that is `None`.
#[verifier::external_body]
fn read_pair_members(text: &[u8]) -> (out: Result<Vec<(String, String, String)>, serde_json::Error>)
    ensures
        match out {
            Ok(found) => pair_members_in(text@) == Some(pair_member_views(found@)),
            Err(_) => pair_members_in(text@) is None,
        },
{
    let object: std::collections::BTreeMap<String, (String, String)> = serde_json::from_slice(text)?;
    Ok(object.into_iter().map(|(tag, (first, second))| (tag, first, second)).collect())
}

/// Whether `tag` is the variant name `name`.
fn names(tag: &String, name: &str) -> (same: bool)
    ensures
        same == (tag@ == name@),
{
    let wanted = String::from_str(name);
    *tag == wanted
}

/// Picks the event out of the two readings of one text.
pub fn event_from_members(
    members: Option<Vec<(String, String)>>,
    pairs: Option<Vec<(String, String, String)>>,
) -> (result: Result<Event, DecodeError>)
    ensures
        decoded_view(result) == event_of(
            match members { Some(m) => Some(member_views(m@)), None => None },
            match pairs { Some(p) => Some(pair_member_views(p@)), None => None },
        ),
{
    let neither = members.is_none() && pairs.is_none();
    if let Some(mut found) = members {
        if found.len() == 1 {
            let ghost before = found@;
            let (tag, value) = found.remove(0);
            assert(before[0] == (tag, value));
            if names(&tag, "Connected") {
                return Ok(Event::Connected(value));
            }
            if names(&tag, "Disconnected") {
                return Ok(Event::Disconnected(value));
            }
        }
    }
    if let Some(mut found) = pairs {
        if found.len() == 1 {
            let ghost before = found@;
            let (tag, first, second) = found.remove(0);
            assert(before[0] == (tag, first, second));
            if names(&tag, "Chat") {
                return Ok(Event::Chat(first, second));
            }
        }
    }
    if neither {
        Err(DecodeError::Malformed)
    } else {
        Err(DecodeError::Unrecognized)
    }
}

/// Turns the outcome of a reading into an `Option`, dropping the error's detail.
fn reading<T>(outcome: Result<T, serde_json::Error>) -> (found: Option<T>)
    ensures
        found == (match outcome { Ok(v) => Some(v), Err(_) => None::<T> }),
{
    match outcome {
        Ok(v) => Some(v),
        Err(_) => None,
    }
}

/// Decodes the bytes of one stream. White space between the JSON tokens and
/// escapes inside the strings are read as JSON has them; a member name that
/// is repeated counts once, with its last value.
pub fn decode(text: &[u8]) -> (result: Result<Event, DecodeError>)
    ensures
        decoded_view(result) == decode_model(text@),
{
    let members = reading(read_members(text));
    let pairs = reading(read_pair_members(text));
    event_from_members(members, pairs)
}

/// Encodes one event. This always succeeds, and the bytes decode to the
/// event again.
pub fn encode(event: &Event) -> (result: Result<Vec<u8>, EncodeError>)
    ensures
        result is Ok,
        result matches Ok(text) ==> text@ == wire_text(event@),
        result matches Ok(text) ==> decode_model(text@) == Ok::<EventModel, DecodeError>(event@),
{
    proof {
        reveal_strlit("Connected");
        reveal_strlit("Disconnected");
        reveal_strlit("Chat");
    }
    assert("Disconnected"@.len() != "Connected"@.len());
    let written = match event {
        Event::Connected(id) => write_member("Connected", id.as_str()),
        Event::Disconnected(id) => write_member("Disconnected", id.as_str()),
        Event::Chat(sender, content) => write_pair_member("Chat", sender.as_str(), content.as_str()),
    };
    match written {
        Ok(text) => {
            proof {
                match event@ {
                    EventModel::Connected(id) => {
                        assert(members_in(text@)->0 =~= seq![("Connected"@, id)]);
                        assert(members_in(text@)->0[0] == ("Connected"@, id));
                    },
                    EventModel::Disconnected(id) => {
                        assert(members_in(text@)->0 =~= seq![("Disconnected"@, id)]);
                        assert(members_in(text@)->0[0] == ("Disconnected"@, id));
                    },
                    EventModel::Chat(sender, content) => {
                        assert(pair_members_in(text@)->0 =~= seq![("Chat"@, sender, content)]);
                        assert(pair_members_in(text@)->0[0] == ("Chat"@, sender, content));
                    },
                }
            }
            Ok(text)
        },
        Err(_) => Err(EncodeError::Writer),
    }
}

/// Encodes an event and decodes the bytes again: what comes back is the
/// event, whichever variant it is and whatever text it holds.
pub fn round_trip(event: &Event) -> (back: Result<Event, DecodeError>)
    ensures
        decoded_view(back) == Ok::<EventModel, DecodeError>(event@),
{
    match encode(event) {
        Ok(text) => decode(text.as_slice()),
        Err(_) => Err(DecodeError::Malformed),
    }
}

} // verus!
