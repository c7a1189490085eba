use kv_server::frame::{Frame, Response};
use kv_server::handler::{step, ConnState, Event};
use kv_server::store::Store;

fn bulk(bytes: &[u8]) -> Frame {
    Frame::Bulk(bytes.to_vec())
}

fn set_frame(key: &[u8], value: &[u8]) -> Frame {
    Frame::Array(vec![bulk(b"SET"), bulk(key), bulk(value)])
}

fn get_frame(key: &[u8]) -> Frame {
    Frame::Array(vec![bulk(b"GET"), bulk(key)])
}

#[test]
fn scenario_set_then_get_round_trip() {
    let mut store = Store::new();
    let state = ConnState::Reading;

    let (state, resp) = step(state, Event::Received(set_frame(b"foo", b"bar")), &mut store);
    assert_eq!(state, ConnState::Reading);
    assert_eq!(resp, Some(Response::Simple("OK".to_string())));

    let (state, resp) = step(state, Event::Received(get_frame(b"foo")), &mut store);
    assert_eq!(state, ConnState::Reading);
    assert_eq!(resp, Some(Response::Bulk(b"bar".to_vec())));
}

#[test]
fn scenario_get_missing_key_answers_null() {
    let mut store = Store::new();
    let (state, resp) = step(ConnState::Reading, Event::Received(get_frame(b"missing")), &mut store);
    assert_eq!(state, ConnState::Reading);
    assert_eq!(resp, Some(Response::Null));
}

#[test]
fn scenario_two_connections_write_different_keys() {
    // Two connections write distinct keys; the lock serializes the
    // two SETs in one of two orders. In either order a third
    // connection then reads both values back intact.
    for order in [true, false] {
        let mut store = Store::new();
        let conn_one = ConnState::Reading;
        let conn_two = ConnState::Reading;
        if order {
            step(conn_one, Event::Received(set_frame(b"a", b"1")), &mut store);
            step(conn_two, Event::Received(set_frame(b"b", b"2")), &mut store);
        } else {
            step(conn_two, Event::Received(set_frame(b"b", b"2")), &mut store);
            step(conn_one, Event::Received(set_frame(b"a", b"1")), &mut store);
        }
        let conn_three = ConnState::Reading;
        let (conn_three, resp) = step(conn_three, Event::Received(get_frame(b"a")), &mut store);
        assert_eq!(resp, Some(Response::Bulk(b"1".to_vec())));
        let (_, resp) = step(conn_three, Event::Received(get_frame(b"b")), &mut store);
        assert_eq!(resp, Some(Response::Bulk(b"2".to_vec())));
    }
}

#[test]
fn scenario_unsupported_command_closes_connection() {
    // The pinned policy is the reference behavior: an unrecognized
    // command aborts the connection, with no response frame.
    let mut store = Store::new();
    let (state, resp) = step(
        ConnState::Reading,
        Event::Received(Frame::Array(vec![bulk(b"PING")])),
        &mut store,
    );
    assert_eq!(state, ConnState::Closed);
    assert_eq!(resp, None);
}

#[test]
fn unsupported_command_leaves_store_intact() {
    let mut store = Store::new();
    step(ConnState::Reading, Event::Received(set_frame(b"k", b"v")), &mut store);
    let (state, resp) = step(ConnState::Reading, Event::Received(bulk(b"junk")), &mut store);
    assert_eq!(state, ConnState::Closed);
    assert_eq!(resp, None);
    let (_, resp) = step(ConnState::Reading, Event::Received(get_frame(b"k")), &mut store);
    assert_eq!(resp, Some(Response::Bulk(b"v".to_vec())));
}

#[test]
fn end_of_stream_closes_cleanly() {
    let mut store = Store::new();
    let (state, resp) = step(ConnState::Reading, Event::EndOfStream, &mut store);
    assert_eq!(state, ConnState::Closed);
    assert_eq!(resp, None);
}

#[test]
fn write_failure_closes_connection() {
    let mut store = Store::new();
    let (state, resp) = step(ConnState::Reading, Event::WriteFailed, &mut store);
    assert_eq!(state, ConnState::Closed);
    assert_eq!(resp, None);
}

#[test]
fn closed_state_is_terminal() {
    let mut store = Store::new();
    for event in [
        Event::Received(get_frame(b"k")),
        Event::Received(set_frame(b"k", b"v")),
        Event::EndOfStream,
        Event::WriteFailed,
    ] {
        let (state, resp) = step(ConnState::Closed, event, &mut store);
        assert_eq!(state, ConnState::Closed);
        assert_eq!(resp, None);
    }
    assert_eq!(store.get(&b"k".to_vec()), None);
}

#[test]
fn cross_connection_visibility_of_writes() {
    // One connection writes; a different connection's handler reads
    // the same shared store and sees the value.
    let mut store = Store::new();
    let writer = ConnState::Reading;
    let reader = ConnState::Reading;
    step(writer, Event::Received(set_frame(b"shared", b"seen")), &mut store);
    let (_, resp) = step(reader, Event::Received(get_frame(b"shared")), &mut store);
    assert_eq!(resp, Some(Response::Bulk(b"seen".to_vec())));
}

#[test]
fn last_write_wins_through_handler_round_trips() {
    let mut store = Store::new();
    let mut state = ConnState::Reading;
    for value in [b"v1".as_slice(), b"v2".as_slice(), b"v3".as_slice()] {
        let (next, resp) = step(state, Event::Received(set_frame(b"k", value)), &mut store);
        assert_eq!(resp, Some(Response::Simple("OK".to_string())));
        state = next;
    }
    let (_, resp) = step(state, Event::Received(get_frame(b"k")), &mut store);
    assert_eq!(resp, Some(Response::Bulk(b"v3".to_vec())));
}
