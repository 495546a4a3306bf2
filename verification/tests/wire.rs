use peer_chat::event::Event;
use peer_chat::receiver::{receive, Fault, MAX_MESSAGE_BYTES};
use peer_chat::wire::{decode, encode, event_from_members, DecodeError};

fn text(s: &str) -> String {
    String::from(s)
}

#[test]
fn connected_round_trips() {
    let e = Event::Connected(text("A-1"));
    let bytes = encode(&e).unwrap();
    assert_eq!(decode(&bytes), Ok(e));
}

#[test]
fn disconnected_round_trips() {
    let e = Event::Disconnected(text("B-7"));
    let bytes = encode(&e).unwrap();
    assert_eq!(decode(&bytes), Ok(e));
}

#[test]
fn chat_round_trips() {
    let e = Event::Chat(text("A-1"), text("hello"));
    let bytes = encode(&e).unwrap();
    assert_eq!(decode(&bytes), Ok(e));
}

#[test]
fn awkward_text_round_trips() {
    let e = Event::Chat(text("id \"quoted\" \\ back"), text("line\nbreak\ttab \u{1F600} \u{0001} {\"Chat\":[]}"));
    let bytes = encode(&e).unwrap();
    assert_eq!(decode(&bytes), Ok(e));
    let e = Event::Connected(text(""));
    let bytes = encode(&e).unwrap();
    assert_eq!(decode(&bytes), Ok(e));
}

#[test]
fn connected_has_its_exact_bytes() {
    let bytes = encode(&Event::Connected(text("A-1"))).unwrap();
    assert_eq!(bytes, b"{\"Connected\":\"A-1\"}".to_vec());
}

#[test]
fn disconnected_has_its_exact_bytes() {
    let bytes = encode(&Event::Disconnected(text("A-1"))).unwrap();
    assert_eq!(bytes, b"{\"Disconnected\":\"A-1\"}".to_vec());
}

#[test]
fn chat_has_its_exact_bytes() {
    let bytes = encode(&Event::Chat(text("A-1"), text("hello"))).unwrap();
    assert_eq!(bytes, b"{\"Chat\":[\"A-1\",\"hello\"]}".to_vec());
}

#[test]
fn encoding_escapes_quotes() {
    let bytes = encode(&Event::Connected(text("a\"b"))).unwrap();
    assert_eq!(bytes, b"{\"Connected\":\"a\\\"b\"}".to_vec());
}

#[test]
fn encoding_differs_from_the_bare_text() {
    let bytes = encode(&Event::Connected(text("A-1"))).unwrap();
    assert_ne!(bytes, b"A-1".to_vec());
    assert_ne!(bytes, b"Connected".to_vec());
}

#[test]
fn decode_reads_spaced_and_escaped_text() {
    let got = decode(b" { \"Chat\" : [ \"A\\u002d1\" , \"hi\\n\" ] } ");
    assert_eq!(got, Ok(Event::Chat(text("A-1"), text("hi\n"))));
}

#[test]
fn decode_refuses_what_is_not_an_object() {
    assert_eq!(decode(b"not json"), Err(DecodeError::Malformed));
    assert_eq!(decode(b""), Err(DecodeError::Malformed));
    assert_eq!(decode(b"[1]"), Err(DecodeError::Malformed));
    assert_eq!(decode(b"\"Connected\""), Err(DecodeError::Malformed));
    assert_eq!(decode(b"{\"Connected\":\"A-1\"} x"), Err(DecodeError::Malformed));
    assert_eq!(decode(b"{\"Connected\":7}"), Err(DecodeError::Malformed));
}

#[test]
fn decode_refuses_unknown_variants() {
    assert_eq!(decode(b"{\"Hello\":\"A-1\"}"), Err(DecodeError::Unrecognized));
    assert_eq!(decode(b"{\"connected\":\"A-1\"}"), Err(DecodeError::Unrecognized));
    assert_eq!(decode(b"{\"Other\":[\"a\",\"b\"]}"), Err(DecodeError::Unrecognized));
}

#[test]
fn decode_refuses_a_variant_with_the_wrong_value() {
    assert_eq!(decode(b"{\"Chat\":\"hello\"}"), Err(DecodeError::Unrecognized));
    assert_eq!(decode(b"{\"Connected\":[\"a\",\"b\"]}"), Err(DecodeError::Unrecognized));
    assert_eq!(decode(b"{\"Chat\":[\"a\"]}"), Err(DecodeError::Malformed));
    assert_eq!(decode(b"{\"Chat\":[\"a\",\"b\",\"c\"]}"), Err(DecodeError::Malformed));
}

#[test]
fn decode_refuses_empty_and_crowded_objects() {
    assert_eq!(decode(b"{}"), Err(DecodeError::Unrecognized));
    assert_eq!(
        decode(b"{\"Connected\":\"a\",\"Disconnected\":\"b\"}"),
        Err(DecodeError::Unrecognized)
    );
}

#[test]
fn members_pick_the_event() {
    let one = vec![(text("Connected"), text("A-1"))];
    assert_eq!(event_from_members(Some(one), None), Ok(Event::Connected(text("A-1"))));
    let one = vec![(text("Disconnected"), text("A-1"))];
    assert_eq!(event_from_members(Some(one), None), Ok(Event::Disconnected(text("A-1"))));
    let pair = vec![(text("Chat"), text("A-1"), text("hello"))];
    assert_eq!(
        event_from_members(None, Some(pair)),
        Ok(Event::Chat(text("A-1"), text("hello")))
    );
}

#[test]
fn members_that_fit_no_variant_are_refused() {
    assert_eq!(event_from_members(None, None), Err(DecodeError::Malformed));
    assert_eq!(event_from_members(Some(vec![]), None), Err(DecodeError::Unrecognized));
    assert_eq!(event_from_members(Some(vec![]), Some(vec![])), Err(DecodeError::Unrecognized));
    let one = vec![(text("Chat"), text("A-1"))];
    assert_eq!(event_from_members(Some(one), None), Err(DecodeError::Unrecognized));
    let pair = vec![(text("Connected"), text("A-1"), text("hello"))];
    assert_eq!(event_from_members(None, Some(pair)), Err(DecodeError::Unrecognized));
    let two = vec![(text("Connected"), text("a")), (text("Disconnected"), text("b"))];
    assert_eq!(event_from_members(Some(two), None), Err(DecodeError::Unrecognized));
}

#[test]
fn string_members_win_over_pairs() {
    let one = vec![(text("Connected"), text("A-1"))];
    let pair = vec![(text("Chat"), text("B"), text("hello"))];
    assert_eq!(event_from_members(Some(one), Some(pair)), Ok(Event::Connected(text("A-1"))));
}

fn chat_of_size(total: usize) -> Vec<u8> {
    let frame = encode(&Event::Chat(text("A-1"), text(""))).unwrap().len();
    let content = "x".repeat(total - frame);
    let bytes = encode(&Event::Chat(text("A-1"), content)).unwrap();
    assert_eq!(bytes.len(), total);
    bytes
}

#[test]
fn the_limit_is_eight_kibibytes() {
    assert_eq!(MAX_MESSAGE_BYTES, 8192);
}

#[test]
fn a_message_of_8192_bytes_is_accepted() {
    let bytes = chat_of_size(8192);
    let got = receive(&bytes);
    assert_eq!(got, Ok(Event::Chat(text("A-1"), "x".repeat(8192 - 19))));
}

#[test]
fn a_message_of_8193_bytes_is_a_fault() {
    let bytes = chat_of_size(8193);
    assert_eq!(receive(&bytes), Err(Fault::TooLarge));
}

#[test]
fn size_is_judged_before_content() {
    let junk = vec![b'?'; 8193];
    assert_eq!(receive(&junk), Err(Fault::TooLarge));
    let junk = vec![b'?'; 8192];
    assert_eq!(receive(&junk), Err(Fault::Decode(DecodeError::Malformed)));
}

#[test]
fn an_undecodable_message_is_a_decode_fault() {
    assert_eq!(receive(b"{\"Hello\":\"x\"}"), Err(Fault::Decode(DecodeError::Unrecognized)));
    assert_eq!(receive(b""), Err(Fault::Decode(DecodeError::Malformed)));
}

#[test]
fn a_repeated_member_counts_once_with_its_last_value() {
    let got = decode(b"{\"Connected\":\"a\",\"Connected\":\"b\"}");
    assert_eq!(got, Ok(Event::Connected(text("b"))));
}
