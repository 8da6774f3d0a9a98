//! One end of a link and its handshake.
//!
//! A value crosses a link only when both ends are ready for it. The end that
//! wants to read says `GET`; the end that wants to write waits for a `GET`,
//! sends the value and waits for `ACK` or `NAK`. Either end may start, both may
//! ask at once, and a request may be withdrawn with `NAK` after the neighbour
//! has already answered it.

use crate::layout::{block_base, End, Link};
use crate::side::Side;
use crate::token::Token;
use vstd::prelude::*;

verus! {

/// The handshake state of one end of a link.
pub struct Handshake {
    /// This end has asked for a value and has none yet.
    pub sent_get: bool,
    /// The neighbour has asked for a value and has none yet.
    pub got_get: bool,
    /// How many requests this end has withdrawn whose answers may still
    /// arrive.
    pub cancelled_gets: nat,
}

/// A token to put on the outbound pipe of a side.
#[derive(Clone, Copy, PartialEq, Eq, Debug, Structural)]
pub struct Emission {
    pub side: Side,
    pub token: Token,
}

/// What a peer was waiting for when a line arrived.
#[derive(Clone, Copy, PartialEq, Eq, Debug, Structural)]
pub enum Awaiting {
    /// The neighbour's request, before a value is sent.
    Request,
    /// The neighbour's answer to a value that was sent.
    Reply,
    /// The value that this end asked for.
    Value,
}

/// A line that the protocol does not allow in the state in which it arrived.
/// Nothing can be done about it: the pipes are reliable, so one of the two
/// programs is wrong.
#[derive(Clone, PartialEq, Eq, Debug)]
pub struct ProtocolViolation {
    /// The side on which the line arrived.
    pub side: Side,
    /// What the peer was waiting for.
    pub awaiting: Awaiting,
    /// The line.
    pub line: Vec<u8>,
    /// The handshake state in which it arrived.
    pub sent_get: bool,
    pub got_get: bool,
    pub cancelled_gets: usize,
}

impl ProtocolViolation {
    /// Whether the violation reports the given line, arriving on the given side
    /// in the given state.
    pub open spec fn reports(
        self,
        side: Side,
        awaiting: Awaiting,
        line: Seq<u8>,
        state: Handshake,
    ) -> bool {
        &&& self.side == side
        &&& self.awaiting == awaiting
        &&& self.line@ == line
        &&& self.sent_get == state.sent_get
        &&& self.got_get == state.got_get
        &&& self.cancelled_gets == state.cancelled_gets
    }
}

impl Handshake {
    /// The state of a link on which nothing has happened.
    pub open spec fn fresh() -> Handshake {
        Handshake { sent_get: false, got_get: false, cancelled_gets: 0 }
    }

    /// The state after asking for a value. Asking twice is asking once.
    pub open spec fn request(self) -> Handshake {
        Handshake { sent_get: true, ..self }
    }

    /// The state after withdrawing a request, if one is out: the answer that
    /// may already be under way is counted, to be dropped when it arrives.
    pub open spec fn cancel(self) -> Handshake {
        if self.sent_get {
            Handshake { sent_get: false, cancelled_gets: self.cancelled_gets + 1, ..self }
        } else {
            self
        }
    }

    /// The state after one withdrawn request's answer has been dropped.
    pub open spec fn absorb(self) -> Handshake {
        Handshake { cancelled_gets: (self.cancelled_gets - 1) as nat, ..self }
    }

    /// A line arrives while this end waits for the value it asked for. The
    /// result is the next state and the value, if one is delivered, or nothing
    /// if the line is not allowed here.
    ///
    /// * `GET`, and the neighbour has not asked before: both ends ask at once.
    ///   The request is noted and no value is delivered.
    /// * `NAK`, and the neighbour had asked: it withdraws. No value.
    /// * A value, and an answer to a withdrawn request is still owed: this is
    ///   that answer. It is dropped and counted.
    /// * A value otherwise: it is delivered, and the request is settled.
    pub open spec fn read_step(self, line: Seq<u8>) -> Option<(Handshake, Option<i32>)> {
        match Token::parse(line) {
            Some(Token::Get) => if !self.got_get {
                Some((Handshake { got_get: true, ..self }, None))
            } else {
                None
            },
            Some(Token::Nak) => if self.got_get {
                Some((Handshake { got_get: false, ..self }, None))
            } else {
                None
            },
            Some(Token::Value(v)) => if self.cancelled_gets > 0 {
                Some((self.absorb(), None))
            } else {
                Some((Handshake { sent_get: false, ..self }, Some(v)))
            },
            _ => None,
        }
    }

    /// An attempt to send begins. If the neighbour has asked already, its
    /// request is used up and the value can go out at once (`true`); else the
    /// request must be waited for.
    pub open spec fn offer(self) -> (Handshake, bool) {
        if self.got_get {
            (Handshake { got_get: false, ..self }, true)
        } else {
            (self, false)
        }
    }

    /// A line arrives while this end waits for the neighbour's request. The
    /// result is the next state and whether the value may go out, or nothing
    /// if the line is not allowed here.
    ///
    /// * `GET`: the value may go out.
    /// * A value, and an answer to a withdrawn request is still owed: it is
    ///   dropped and counted, and the attempt has failed.
    pub open spec fn request_step(self, line: Seq<u8>) -> Option<(Handshake, bool)> {
        match Token::parse(line) {
            Some(Token::Get) => Some((self, true)),
            Some(Token::Value(_)) => if self.cancelled_gets > 0 {
                Some((self.absorb(), false))
            } else {
                None
            },
            _ => None,
        }
    }

    /// A line arrives in answer to a value: `ACK` if the neighbour took it,
    /// `NAK` if it had withdrawn its request. Nothing else is allowed.
    pub open spec fn reply_step(line: Seq<u8>) -> Option<bool> {
        match Token::parse(line) {
            Some(Token::Ack) => Some(true),
            Some(Token::Nak) => Some(false),
            _ => None,
        }
    }
}

/// This node's end of the link on one side: where the link lies, and the state
/// of its handshake.
#[derive(Clone, Copy, Debug)]
pub struct Peer {
    link: Link,
    sent_get: bool,
    got_get: bool,
    cancelled_gets: usize,
}

impl View for Peer {
    type V = Handshake;

    closed spec fn view(&self) -> Handshake {
        Handshake {
            sent_get: self.sent_get,
            got_get: self.got_get,
            cancelled_gets: self.cancelled_gets as nat,
        }
    }
}

/// The one token that goes out when `emit` holds, on the given side.
pub open spec fn emitted(emit: bool, side: Side, token: Token) -> Seq<Emission> {
    if emit {
        seq![Emission { side, token }]
    } else {
        Seq::empty()
    }
}

impl Peer {
    /// The link of the peer.
    pub closed spec fn spec_link(self) -> Link {
        self.link
    }

    /// The side of the peer.
    pub open spec fn spec_side(self) -> Side {
        self.spec_link().spec_side()
    }

    /// The peer of `side`, with nothing sent or received yet. Its link is
    /// placed as `Link::new` places it.
    pub fn new(side: Side, pid: Option<i32>, fd_offset: i32) -> (peer: Peer)
        requires
            block_base(side, fd_offset as int) + 3 <= i32::MAX,
            pid is Some ==> block_base(side.spec_opposite(), fd_offset as int) + 3 <= i32::MAX,
        ensures
            peer@ == Handshake::fresh(),
            peer.spec_side() == side,
            peer.spec_link().spec_base() == block_base(side, fd_offset as int),
            peer.spec_link().spec_neighbour() == match pid {
                Some(p) => Some((p, block_base(side.spec_opposite(), fd_offset as int))),
                None => None,
            },
    {
        Peer {
            link: Link::new(side, pid, fd_offset),
            sent_get: false,
            got_get: false,
            cancelled_gets: 0,
        }
    }

    /// The link of the peer.
    pub fn link(&self) -> (link: Link)
        ensures
            link == self.spec_link(),
    {
        self.link
    }

    /// The side of the peer.
    pub fn side(&self) -> (side: Side)
        ensures
            side == self.spec_side(),
    {
        self.link.side()
    }

    /// The descriptor on which the neighbour's lines arrive.
    pub fn input_fd(&self) -> (fd: i32)
        ensures
            fd == self.spec_link().spec_descriptor(End::InputRead),
    {
        self.link.input_fd()
    }

    /// Whether this end has asked for a value and has none yet.
    pub fn sent_get(&self) -> (yes: bool)
        ensures
            yes == self@.sent_get,
    {
        self.sent_get
    }

    /// Whether the neighbour has asked for a value and has none yet.
    pub fn got_get(&self) -> (yes: bool)
        ensures
            yes == self@.got_get,
    {
        self.got_get
    }

    /// How many answers to withdrawn requests are still to be dropped.
    pub fn cancelled_gets(&self) -> (count: usize)
        ensures
            count == self@.cancelled_gets,
    {
        self.cancelled_gets
    }

    /// Asks the neighbour for a value, unless it has been asked already: `GET`
    /// goes out once for each value.
    pub fn request_read(&mut self, wire: &mut Vec<Emission>)
        ensures
            final(self)@ == old(self)@.request(),
            final(self).spec_link() == old(self).spec_link(),
            final(wire)@ == old(wire)@ + emitted(
                !old(self)@.sent_get,
                old(self).spec_side(),
                Token::Get,
            ),
    {
        if !self.sent_get {
            wire.push(Emission { side: self.link.side(), token: Token::Get });
            self.sent_get = true;
        }
    }

    /// Takes the next line from the neighbour while a request is out. A value
    /// that is delivered is acknowledged with `ACK`; every other allowed line
    /// delivers nothing, and the caller reads on. See `Handshake::read_step`.
    pub fn finish_read(&mut self, line: &[u8], wire: &mut Vec<Emission>) -> (result: Result<
        Option<i32>,
        ProtocolViolation,
    >)
        requires
            old(self)@.sent_get,
        ensures
            final(self).spec_link() == old(self).spec_link(),
            match old(self)@.read_step(line@) {
                Some((next, value)) => {
                    &&& result == Ok::<Option<i32>, ProtocolViolation>(value)
                    &&& final(self)@ == next
                    &&& final(wire)@ == old(wire)@ + emitted(
                        value is Some,
                        old(self).spec_side(),
                        Token::Ack,
                    )
                },
                None => {
                    &&& result matches Err(e)
                    &&& e.reports(old(self).spec_side(), Awaiting::Value, line@, old(self)@)
                    &&& final(self)@ == old(self)@
                    &&& final(wire)@ == old(wire)@
                },
            },
    {
        let token = Token::decode(line);
        match token {
            Some(Token::Get) => {
                if !self.got_get {
                    self.got_get = true;
                    return Ok(None);
                }
            },
            Some(Token::Nak) => {
                if self.got_get {
                    self.got_get = false;
                    return Ok(None);
                }
            },
            Some(Token::Value(value)) => {
                if self.cancelled_gets > 0 {
                    self.cancelled_gets = self.cancelled_gets - 1;
                    return Ok(None);
                } else {
                    wire.push(Emission { side: self.link.side(), token: Token::Ack });
                    self.sent_get = false;
                    return Ok(Some(value));
                }
            },
            _ => {},
        }
        Err(self.violation(Awaiting::Value, line))
    }

    /// Withdraws the request for a value, if one is out: `NAK` goes out, and
    /// the answer that may already be under way is counted.
    pub fn cancel_read(&mut self, wire: &mut Vec<Emission>)
        requires
            old(self)@.sent_get ==> old(self)@.cancelled_gets < usize::MAX,
        ensures
            final(self)@ == old(self)@.cancel(),
            final(self).spec_link() == old(self).spec_link(),
            final(wire)@ == old(wire)@ + emitted(
                old(self)@.sent_get,
                old(self).spec_side(),
                Token::Nak,
            ),
    {
        if self.sent_get {
            wire.push(Emission { side: self.link.side(), token: Token::Nak });
            self.cancelled_gets = self.cancelled_gets + 1;
            self.sent_get = false;
        }
    }

    /// Begins an attempt to send `value`. If the neighbour has asked already,
    /// its request is used up, the value goes out and the answer is `true`: the
    /// next line is the neighbour's reply. Else nothing goes out and the answer
    /// is `false`: the next line must be the neighbour's request.
    pub fn try_send(&mut self, value: i32, wire: &mut Vec<Emission>) -> (sent: bool)
        requires
            !old(self)@.sent_get,
        ensures
            (final(self)@, sent) == old(self)@.offer(),
            final(self).spec_link() == old(self).spec_link(),
            final(wire)@ == old(wire)@ + emitted(sent, old(self).spec_side(), Token::Value(value)),
    {
        let sent = self.got_get;
        if sent {
            self.got_get = false;
            wire.push(Emission { side: self.link.side(), token: Token::Value(value) });
        }
        sent
    }

    /// Takes the line that arrives while an attempt to send waits for the
    /// neighbour's request. On `GET` the value goes out and the answer is
    /// `true`: the next line is the neighbour's reply. On the late answer to a
    /// withdrawn request the answer is `false`: the attempt has failed and may
    /// be made again. See `Handshake::request_step`.
    pub fn try_send_requested(
        &mut self,
        line: &[u8],
        value: i32,
        wire: &mut Vec<Emission>,
    ) -> (result: Result<bool, ProtocolViolation>)
        requires
            !old(self)@.sent_get,
        ensures
            final(self).spec_link() == old(self).spec_link(),
            match old(self)@.request_step(line@) {
                Some((next, sent)) => {
                    &&& result == Ok::<bool, ProtocolViolation>(sent)
                    &&& final(self)@ == next
                    &&& final(wire)@ == old(wire)@ + emitted(
                        sent,
                        old(self).spec_side(),
                        Token::Value(value),
                    )
                },
                None => {
                    &&& result matches Err(e)
                    &&& e.reports(old(self).spec_side(), Awaiting::Request, line@, old(self)@)
                    &&& final(self)@ == old(self)@
                    &&& final(wire)@ == old(wire)@
                },
            },
    {
        let token = Token::decode(line);
        match token {
            Some(Token::Get) => {
                wire.push(Emission { side: self.link.side(), token: Token::Value(value) });
                return Ok(true);
            },
            Some(Token::Value(_)) => {
                if self.cancelled_gets > 0 {
                    self.cancelled_gets = self.cancelled_gets - 1;
                    return Ok(false);
                }
            },
            _ => {},
        }
        Err(self.violation(Awaiting::Request, line))
    }

    /// Takes the neighbour's reply to a value that was sent: `true` for `ACK`,
    /// the value has arrived; `false` for `NAK`, the neighbour had withdrawn
    /// its request and the attempt may be made again. The state of the peer
    /// does not change.
    pub fn try_send_replied(&self, line: &[u8]) -> (result: Result<bool, ProtocolViolation>)
        requires
            !self@.sent_get,
        ensures
            match Handshake::reply_step(line@) {
                Some(taken) => result == Ok::<bool, ProtocolViolation>(taken),
                None => {
                    &&& result matches Err(e)
                    &&& e.reports(self.spec_side(), Awaiting::Reply, line@, self@)
                },
            },
    {
        let token = Token::decode(line);
        match token {
            Some(Token::Ack) => Ok(true),
            Some(Token::Nak) => Ok(false),
            _ => Err(self.violation(Awaiting::Reply, line)),
        }
    }

    /// The report of a line that is not allowed in the present state.
    fn violation(&self, awaiting: Awaiting, line: &[u8]) -> (e: ProtocolViolation)
        ensures
            e.reports(self.spec_side(), awaiting, line@, self@),
    {
        ProtocolViolation {
            side: self.link.side(),
            awaiting,
            line: copy_line(line),
            sent_get: self.sent_get,
            got_get: self.got_get,
            cancelled_gets: self.cancelled_gets,
        }
    }
}

/// An owned copy of a line.
fn copy_line(line: &[u8]) -> (copy: Vec<u8>)
    ensures
        copy@ == line@,
{
    let mut copy: Vec<u8> = Vec::new();
    let mut i: usize = 0;
    while i < line.len()
        invariant
            i <= line.len(),
            copy@ == line@.take(i as int),
        decreases line.len() - i,
    {
        copy.push(line[i]);
        i = i + 1;
    }
    copy
}

} // verus!
