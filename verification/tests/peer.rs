use grid_node::peer::Awaiting;
use grid_node::{Emission, Peer, ProtocolViolation, Side, Token};

fn fresh(side: Side) -> Peer {
    Peer::new(side, None, 3)
}

fn get(side: Side) -> Emission {
    Emission { side, token: Token::Get }
}

fn ack(side: Side) -> Emission {
    Emission { side, token: Token::Ack }
}

fn nak(side: Side) -> Emission {
    Emission { side, token: Token::Nak }
}

fn value(side: Side, v: i32) -> Emission {
    Emission { side, token: Token::Value(v) }
}

fn flags(peer: &Peer) -> (bool, bool, usize) {
    (peer.sent_get(), peer.got_get(), peer.cancelled_gets())
}

#[test]
fn a_new_peer_has_done_nothing() {
    let peer = fresh(Side::Up);
    assert_eq!(peer.side(), Side::Up);
    assert_eq!(flags(&peer), (false, false, 0));
    assert_eq!(peer.input_fd(), 13);
    assert_eq!(peer.link().side(), Side::Up);
    assert!(!peer.link().attaches());
    let attached = Peer::new(Side::Up, Some(9), 3);
    assert!(attached.link().attaches());
    assert_eq!(attached.input_fd(), 13);
}

#[test]
fn request_read_says_get_once() {
    let mut peer = fresh(Side::Left);
    let mut wire = Vec::new();
    peer.request_read(&mut wire);
    assert_eq!(wire, vec![get(Side::Left)]);
    assert_eq!(flags(&peer), (true, false, 0));
    peer.request_read(&mut wire);
    peer.request_read(&mut wire);
    assert_eq!(wire, vec![get(Side::Left)]);
    assert_eq!(flags(&peer), (true, false, 0));
}

#[test]
fn finish_read_delivers_a_value_and_acknowledges_it() {
    for v in [42, 0, -1, i32::MIN, i32::MAX] {
        let mut peer = fresh(Side::Right);
        let mut wire = Vec::new();
        peer.request_read(&mut wire);
        let line = Token::Value(v).encode();
        let got = peer.finish_read(&line[..line.len() - 1], &mut wire);
        assert_eq!(got, Ok(Some(v)));
        assert_eq!(wire, vec![get(Side::Right), ack(Side::Right)]);
        assert_eq!(flags(&peer), (false, false, 0));
    }
}

#[test]
fn finish_read_notes_a_request_that_crosses_its_own() {
    let mut peer = fresh(Side::Left);
    let mut wire = Vec::new();
    peer.request_read(&mut wire);
    assert_eq!(peer.finish_read(b"GET", &mut wire), Ok(None));
    assert_eq!(flags(&peer), (true, true, 0));
    assert_eq!(wire, vec![get(Side::Left)]);
}

#[test]
fn finish_read_lets_the_neighbour_withdraw_its_request() {
    let mut peer = fresh(Side::Left);
    let mut wire = Vec::new();
    peer.request_read(&mut wire);
    assert_eq!(peer.finish_read(b"GET", &mut wire), Ok(None));
    assert_eq!(peer.finish_read(b"NAK", &mut wire), Ok(None));
    assert_eq!(flags(&peer), (true, false, 0));
    assert_eq!(peer.finish_read(b"5", &mut wire), Ok(Some(5)));
    assert_eq!(wire, vec![get(Side::Left), ack(Side::Left)]);
}

#[test]
fn finish_read_drops_the_answer_to_a_withdrawn_request() {
    let mut peer = fresh(Side::Down);
    let mut wire = Vec::new();
    peer.request_read(&mut wire);
    peer.cancel_read(&mut wire);
    assert_eq!(flags(&peer), (false, false, 1));
    peer.request_read(&mut wire);
    assert_eq!(peer.finish_read(b"11", &mut wire), Ok(None));
    assert_eq!(flags(&peer), (true, false, 0));
    assert_eq!(peer.finish_read(b"11", &mut wire), Ok(Some(11)));
    assert_eq!(flags(&peer), (false, false, 0));
    assert_eq!(
        wire,
        vec![get(Side::Down), nak(Side::Down), get(Side::Down), ack(Side::Down)]
    );
}

#[test]
fn finish_read_reports_lines_that_are_not_allowed() {
    let mut peer = fresh(Side::Up);
    let mut wire = Vec::new();
    peer.request_read(&mut wire);
    for line in [&b"ACK"[..], b"NAK", b"", b"hello", b"2147483648", b"GET "] {
        let before = flags(&peer);
        let result = peer.finish_read(line, &mut wire);
        assert_eq!(
            result,
            Err(ProtocolViolation {
                side: Side::Up,
                awaiting: Awaiting::Value,
                line: line.to_vec(),
                sent_get: true,
                got_get: false,
                cancelled_gets: 0,
            })
        );
        assert_eq!(flags(&peer), before);
    }
    assert_eq!(wire, vec![get(Side::Up)]);
    // A second request while one is noted is not allowed either.
    assert_eq!(peer.finish_read(b"GET", &mut wire), Ok(None));
    let result = peer.finish_read(b"GET", &mut wire);
    assert_eq!(
        result,
        Err(ProtocolViolation {
            side: Side::Up,
            awaiting: Awaiting::Value,
            line: b"GET".to_vec(),
            sent_get: true,
            got_get: true,
            cancelled_gets: 0,
        })
    );
}

#[test]
fn cancel_read_says_nak_and_counts() {
    let mut peer = fresh(Side::Left);
    let mut wire = Vec::new();
    peer.cancel_read(&mut wire);
    assert_eq!(wire, vec![]);
    assert_eq!(flags(&peer), (false, false, 0));
    for round in 1..=3 {
        peer.request_read(&mut wire);
        peer.cancel_read(&mut wire);
        assert_eq!(flags(&peer), (false, false, round));
    }
    assert_eq!(wire.len(), 6);
    assert_eq!(wire[5], nak(Side::Left));
}

#[test]
fn cancelled_requests_settle_once_their_answers_have_come() {
    let mut peer = fresh(Side::Right);
    let mut wire = Vec::new();
    for _ in 0..5 {
        peer.request_read(&mut wire);
        peer.cancel_read(&mut wire);
    }
    assert_eq!(peer.cancelled_gets(), 5);
    peer.request_read(&mut wire);
    for answer in [1, 2, 3, 4, 5] {
        let line = answer.to_string();
        assert_eq!(peer.finish_read(line.as_bytes(), &mut wire), Ok(None));
        assert!(peer.sent_get());
    }
    assert_eq!(peer.cancelled_gets(), 0);
    assert_eq!(peer.finish_read(b"6", &mut wire), Ok(Some(6)));
    assert_eq!(flags(&peer), (false, false, 0));
}

#[test]
fn try_send_waits_for_a_request() {
    let mut peer = fresh(Side::Left);
    let mut wire = Vec::new();
    assert!(!peer.try_send(7, &mut wire));
    assert_eq!(wire, vec![]);
    assert_eq!(peer.try_send_requested(b"GET", 7, &mut wire), Ok(true));
    assert_eq!(wire, vec![value(Side::Left, 7)]);
    assert_eq!(peer.try_send_replied(b"ACK"), Ok(true));
    assert_eq!(flags(&peer), (false, false, 0));
}

#[test]
fn try_send_uses_up_a_noted_request() {
    let mut peer = fresh(Side::Right);
    let mut wire = Vec::new();
    peer.request_read(&mut wire);
    assert_eq!(peer.finish_read(b"GET", &mut wire), Ok(None));
    peer.cancel_read(&mut wire);
    assert_eq!(flags(&peer), (false, true, 1));
    wire.clear();
    assert!(peer.try_send(-3, &mut wire));
    assert_eq!(wire, vec![value(Side::Right, -3)]);
    assert_eq!(flags(&peer), (false, false, 1));
}

#[test]
fn try_send_fails_on_nak_and_may_be_made_again() {
    let mut peer = fresh(Side::Left);
    let mut wire = Vec::new();
    assert!(!peer.try_send(7, &mut wire));
    assert_eq!(peer.try_send_requested(b"GET", 7, &mut wire), Ok(true));
    assert_eq!(peer.try_send_replied(b"NAK"), Ok(false));
    assert!(!peer.try_send(7, &mut wire));
    assert_eq!(peer.try_send_requested(b"GET", 7, &mut wire), Ok(true));
    assert_eq!(peer.try_send_replied(b"ACK"), Ok(true));
    assert_eq!(wire, vec![value(Side::Left, 7), value(Side::Left, 7)]);
}

#[test]
fn try_send_drops_the_answer_to_a_withdrawn_request() {
    let mut peer = fresh(Side::Up);
    let mut wire = Vec::new();
    peer.request_read(&mut wire);
    peer.cancel_read(&mut wire);
    wire.clear();
    assert!(!peer.try_send(7, &mut wire));
    assert_eq!(peer.try_send_requested(b"99", 7, &mut wire), Ok(false));
    assert_eq!(flags(&peer), (false, false, 0));
    assert_eq!(wire, vec![]);
    // With nothing owed, a value where a request should be is a violation.
    assert_eq!(
        peer.try_send_requested(b"99", 7, &mut wire),
        Err(ProtocolViolation {
            side: Side::Up,
            awaiting: Awaiting::Request,
            line: b"99".to_vec(),
            sent_get: false,
            got_get: false,
            cancelled_gets: 0,
        })
    );
}

#[test]
fn try_send_reports_lines_that_are_not_allowed() {
    let mut peer = fresh(Side::Down);
    let mut wire = Vec::new();
    for line in [&b"ACK"[..], b"NAK", b"", b"12", b"get"] {
        assert_eq!(
            peer.try_send_requested(line, 1, &mut wire),
            Err(ProtocolViolation {
                side: Side::Down,
                awaiting: Awaiting::Request,
                line: line.to_vec(),
                sent_get: false,
                got_get: false,
                cancelled_gets: 0,
            })
        );
    }
    for line in [&b"GET"[..], b"", b"12", b"ack", b"ACKNAK"] {
        assert_eq!(
            peer.try_send_replied(line),
            Err(ProtocolViolation {
                side: Side::Down,
                awaiting: Awaiting::Reply,
                line: line.to_vec(),
                sent_get: false,
                got_get: false,
                cancelled_gets: 0,
            })
        );
    }
    assert_eq!(wire, vec![]);
    assert_eq!(flags(&peer), (false, false, 0));
}

#[test]
fn two_ends_that_ask_at_once_both_get_on() {
    let mut a = fresh(Side::Right);
    let mut b = fresh(Side::Left);
    let mut a_wire = Vec::new();
    let mut b_wire = Vec::new();
    a.request_read(&mut a_wire);
    b.request_read(&mut b_wire);
    assert_eq!(a.finish_read(b"GET", &mut a_wire), Ok(None));
    assert_eq!(b.finish_read(b"GET", &mut b_wire), Ok(None));
    // One end gives up its request and sends.
    a.cancel_read(&mut a_wire);
    assert!(a.try_send(5, &mut a_wire));
    assert_eq!(
        a_wire,
        vec![get(Side::Right), nak(Side::Right), value(Side::Right, 5)]
    );
    assert_eq!(b.finish_read(b"NAK", &mut b_wire), Ok(None));
    assert_eq!(b.finish_read(b"5", &mut b_wire), Ok(Some(5)));
    assert_eq!(b_wire, vec![get(Side::Left), ack(Side::Left)]);
    assert_eq!(a.try_send_replied(b"ACK"), Ok(true));
    assert_eq!(flags(&b), (false, false, 0));
    assert!(!a.sent_get() && !a.got_get());
}
