//! One link in use: a writer at one end, a reader at the other.
//!
//! The two ends run in different processes and share nothing but two pipes.
//! This module puts both ends and both pipes into one state and lets them
//! move in any order: the writer begins to send a value or reads what the
//! reader has said, the reader asks for a value, withdraws its request, or
//! reads what the writer has sent. Each end moves by the rules of
//! `Handshake`. A writer whose value is declined offers it again, as a write
//! to one side does, or takes it elsewhere, as a wildcard write does. The
//! theorems say that, whatever the order, no end ever finds a line that the
//! protocol forbids, and that the values delivered are the values sent: each
//! once, in order, none left out, however often the reader withdraws a
//! request that the writer has already answered.

use crate::model::{Next, NodeView, Pending, Register, Scan};
use crate::peer::{Emission, Handshake};
use crate::side::Side;
use crate::token::Token;
use vstd::prelude::*;

verus! {

/// How far the writer has come with the value it sends.
pub enum Sending {
    /// It sends nothing.
    Idle,
    /// It waits for the reader's request before it sends the value.
    AwaitRequest(i32),
    /// The value is on the wire, and it waits for the reader's reply.
    AwaitReply(i32),
}

/// One move of one end.
pub enum Move {
    /// The writer begins to send a value.
    Send(i32),
    /// The writer reads the next line from the reader. If the line declines
    /// the value, the writer offers it again.
    WriterReads,
    /// The writer reads that its value is declined and takes it elsewhere.
    WriterLeaves,
    /// The reader asks for a value.
    Request,
    /// The reader withdraws its request.
    Cancel,
    /// The reader reads the next line from the writer.
    ReaderReads,
}

/// Both ends of a link, and what is under way between them.
pub struct Traffic {
    /// The handshake of the writing end.
    pub writer: Handshake,
    /// What the writer is doing.
    pub sending: Sending,
    /// The handshake of the reading end.
    pub reader: Handshake,
    /// What the reader has said and the writer has not read yet.
    pub to_writer: Seq<Token>,
    /// What the writer has sent and the reader has not read yet.
    pub to_reader: Seq<Token>,
    /// The values that the writer has begun to send and not taken elsewhere,
    /// in order.
    pub started: Seq<i32>,
    /// The values that the reader has delivered, in order.
    pub delivered: Seq<i32>,
}

impl Traffic {
    /// A link on which nothing has happened.
    pub open spec fn fresh() -> Traffic {
        Traffic {
            writer: Handshake::fresh(),
            sending: Sending::Idle,
            reader: Handshake::fresh(),
            to_writer: Seq::empty(),
            to_reader: Seq::empty(),
            started: Seq::empty(),
            delivered: Seq::empty(),
        }
    }

    /// Whether an end can make the move: the writer sends one value at a
    /// time, and an end reads only what has arrived, the writer while it
    /// sends, the reader while its request is out.
    pub open spec fn enabled(self, m: Move) -> bool {
        match m {
            Move::Send(_) => self.sending is Idle,
            Move::WriterReads => !(self.sending is Idle) && self.to_writer.len() > 0,
            Move::WriterLeaves => self.sending is AwaitReply && self.to_writer.len() > 0
                && Handshake::reply_step(self.to_writer[0].line()) == Some(false),
            Move::Request => true,
            Move::Cancel => true,
            Move::ReaderReads => self.reader.sent_get && self.to_reader.len() > 0,
        }
    }

    /// The writer makes an attempt to send `value`: the value goes out if the
    /// reader's request is noted, else the writer waits for the request.
    pub open spec fn attempt(self, value: i32) -> Traffic {
        let (writer, offered) = self.writer.offer();
        if offered {
            Traffic {
                writer,
                sending: Sending::AwaitReply(value),
                to_reader: self.to_reader.push(Token::Value(value)),
                ..self
            }
        } else {
            Traffic { writer, sending: Sending::AwaitRequest(value), ..self }
        }
    }

    /// The state after a move, or nothing if the end that moves finds a line
    /// that the protocol forbids.
    pub open spec fn step(self, m: Move) -> Option<Traffic> {
        match m {
            Move::Send(value) => Some(
                Traffic { started: self.started.push(value), ..self }.attempt(value),
            ),
            Move::WriterReads => {
                let line = self.to_writer[0].line();
                let rest = Traffic { to_writer: self.to_writer.skip(1), ..self };
                match self.sending {
                    Sending::AwaitRequest(value) => match self.writer.request_step(line) {
                        Some((writer, true)) => Some(
                            Traffic {
                                writer,
                                sending: Sending::AwaitReply(value),
                                to_reader: self.to_reader.push(Token::Value(value)),
                                ..rest
                            },
                        ),
                        Some((writer, false)) => Some(Traffic { writer, ..rest }.attempt(value)),
                        None => None,
                    },
                    Sending::AwaitReply(value) => match Handshake::reply_step(line) {
                        Some(true) => Some(Traffic { sending: Sending::Idle, ..rest }),
                        Some(false) => Some(rest.attempt(value)),
                        None => None,
                    },
                    Sending::Idle => Some(self),
                }
            },
            Move::WriterLeaves => Some(
                Traffic {
                    sending: Sending::Idle,
                    to_writer: self.to_writer.skip(1),
                    started: self.started.drop_last(),
                    ..self
                },
            ),
            Move::Request => Some(
                Traffic {
                    reader: self.reader.request(),
                    to_writer: if self.reader.sent_get {
                        self.to_writer
                    } else {
                        self.to_writer.push(Token::Get)
                    },
                    ..self
                },
            ),
            Move::Cancel => Some(
                Traffic {
                    reader: self.reader.cancel(),
                    to_writer: if self.reader.sent_get {
                        self.to_writer.push(Token::Nak)
                    } else {
                        self.to_writer
                    },
                    ..self
                },
            ),
            Move::ReaderReads => {
                let line = self.to_reader[0].line();
                let rest = Traffic { to_reader: self.to_reader.skip(1), ..self };
                match self.reader.read_step(line) {
                    Some((reader, Some(value))) => Some(
                        Traffic {
                            reader,
                            to_writer: self.to_writer.push(Token::Ack),
                            delivered: self.delivered.push(value),
                            ..rest
                        },
                    ),
                    Some((reader, None)) => Some(Traffic { reader, ..rest }),
                    None => None,
                }
            },
        }
    }

    /// Whether the next line for the writer, if there is one, is a reply and
    /// not a request.
    pub open spec fn reply_comes_first(self) -> bool {
        self.sending is AwaitReply
    }

    /// How many of the reader's requests the writer has not read yet.
    pub open spec fn requests_waiting(self) -> int {
        if self.reply_comes_first() {
            self.to_writer.len() as int / 2
        } else {
            (self.to_writer.len() as int + 1) / 2
        }
    }

    /// The value that the writer is sending, if it sends one.
    pub open spec fn in_hand(self) -> Option<i32> {
        match self.sending {
            Sending::Idle => None,
            Sending::AwaitRequest(value) => Some(value),
            Sending::AwaitReply(value) => Some(value),
        }
    }

    /// What holds of a link on which one end only writes and the other only
    /// reads, whatever the two have done so far.
    ///
    /// * The writing end has never asked for anything, and the reading end has
    ///   never been asked.
    /// * Requests and replies alternate on their way to the writer, and a
    ///   request is the last of them exactly if the reader's request is out.
    /// * An `ACK` is the next line for the writer when there is one, and then
    ///   nothing is on its way to the reader.
    /// * Values only are on their way to the reader. As many of them as the
    ///   reader has answers to drop are such answers. If one more follows, it
    ///   is the value that the writer has in hand, and the writer waits for
    ///   the reply to it.
    /// * Every request that is out or withdrawn and not yet answered in the
    ///   reader's eyes has its answer still before it: as a request that the
    ///   writer has not read, or as a value that the reader has not read.
    /// * The values delivered are the values whose sending has begun, but for
    ///   the one in hand if it has not been acknowledged yet.
    pub open spec fn sound(self) -> bool {
        let acknowledged = self.to_writer.len() > 0 && self.to_writer[0] == Token::Ack;
        &&& self.writer == Handshake::fresh()
        &&& !self.reader.got_get
        &&& forall|k: int|
            0 <= k < self.to_writer.len() ==> {
                let token = #[trigger] self.to_writer[k];
                &&& (token == Token::Get) == ((k % 2 == 0) != self.reply_comes_first())
                &&& token == Token::Get || token == Token::Nak || token == Token::Ack
                &&& token == Token::Ack ==> k == 0
            }
        &&& self.reader.sent_get == (self.reply_comes_first() != (self.to_writer.len() % 2 == 1))
        &&& acknowledged ==> self.to_reader.len() == 0
        &&& forall|k: int|
            0 <= k < self.to_reader.len() ==> {
                let token = #[trigger] self.to_reader[k];
                &&& token is Value
                &&& k >= self.reader.cancelled_gets ==> self.sending == Sending::AwaitReply(
                    token->Value_0,
                )
            }
        &&& self.reader.cancelled_gets + (if self.reader.sent_get {
            1int
        } else {
            0int
        }) == self.requests_waiting() + self.to_reader.len()
        &&& if self.sending is Idle || acknowledged {
            self.delivered == self.started
        } else {
            &&& self.started.len() > 0
            &&& Some(self.started.last()) == self.in_hand()
            &&& self.delivered == self.started.drop_last()
        }
    }

    /// A link on which nothing has happened is sound.
    pub proof fn fresh_is_sound()
        ensures
            Traffic::fresh().sound(),
    {
    }

    /// Whatever move an end can make on a sound link, it finds no line that the
    /// protocol forbids, and the link is sound after the move.
    pub proof fn moves_keep_sound(self, m: Move)
        requires
            self.sound(),
            self.enabled(m),
        ensures
            self.step(m) is Some,
            self.step(m).unwrap().sound(),
    {
        match m {
            Move::Send(value) => {
                assert(self.started.push(value).drop_last() =~= self.started);
            },
            Move::WriterReads => {
                Token::line_round_trip(self.to_writer[0]);
            },
            Move::WriterLeaves => {
                Token::line_round_trip(self.to_writer[0]);
            },
            Move::Request => {},
            Move::Cancel => {},
            Move::ReaderReads => {
                Token::line_round_trip(self.to_reader[0]);
                if self.reader.cancelled_gets == 0 {
                    assert(self.started.drop_last().push(self.started.last()) =~= self.started);
                }
            },
        }
    }

    /// The reading that is still to be done for what is under way: a request
    /// waits to be read, answered and acknowledged; a value waits to be read
    /// and acknowledged; a reply waits to be read.
    pub open spec fn work(self) -> int {
        2 * self.requests_waiting() + self.to_writer.len() + 2 * self.to_reader.len()
    }

    /// While the writer has a value in hand and the reader's request is out,
    /// the two never wait for each other: a line has arrived for one of them.
    pub proof fn a_waiting_pair_can_move(self)
        requires
            self.sound(),
            !(self.sending is Idle),
            self.reader.sent_get,
        ensures
            self.enabled(Move::WriterReads) || self.enabled(Move::ReaderReads),
    {
    }

    /// Every line that an end reads uses up some of the work, so the ends
    /// cannot go on reading for ever without a new request or withdrawal: if
    /// the reader keeps its request out, the value in hand is delivered and
    /// acknowledged after no more reads than there is work.
    pub proof fn reading_uses_up_work(self, m: Move)
        requires
            self.sound(),
            self.enabled(m),
            m is WriterReads || m is WriterLeaves || m is ReaderReads,
        ensures
            0 <= self.step(m).unwrap().work() < self.work(),
            self.step(m).unwrap().reader.sent_get == self.reader.sent_get || self.step(
                m,
            ).unwrap().delivered.len() == self.delivered.len() + 1,
    {
        self.moves_keep_sound(m);
        match m {
            Move::ReaderReads => {
                Token::line_round_trip(self.to_reader[0]);
            },
            _ => {
                Token::line_round_trip(self.to_writer[0]);
            },
        }
    }

    /// On a sound link every value that has been delivered is a value that was
    /// sent, in the order of sending, none twice and none left out; and once
    /// the writer has nothing in hand, every value sent has been delivered, and
    /// all that is still on its way to the reader will be dropped there.
    pub proof fn deliveries_follow_sends(self)
        requires
            self.sound(),
        ensures
            self.delivered == self.started || (self.started.len() > 0 && self.delivered
                == self.started.drop_last()),
            self.sending is Idle ==> self.delivered == self.started,
            self.sending is Idle ==> self.to_reader.len() <= self.reader.cancelled_gets,
    {
        if self.sending is Idle && self.to_reader.len() > self.reader.cancelled_gets {
            assert(self.to_reader[self.to_reader.len() - 1] is Value);
        }
    }
}

/// What a node that writes to one side is doing, in the terms of the writer
/// of a link.
pub open spec fn sending_of(pending: Pending) -> Sending {
    match pending {
        Pending::Sending { value, offered: true, .. } => Sending::AwaitReply(value),
        Pending::Sending { value, offered: false, .. } => Sending::AwaitRequest(value),
        _ => Sending::Idle,
    }
}

/// Whether the operation under way is a write to the given side.
pub open spec fn writes_to(pending: Pending, side: Side) -> bool {
    match pending {
        Pending::Sending { side: s, scan: Scan::Direct, .. } => s == side,
        _ => false,
    }
}

/// Whether the operation under way is a read from the given side.
pub open spec fn reads_from(pending: Pending, side: Side) -> bool {
    match pending {
        Pending::Reading { side: s, polled: None } => s == side,
        _ => false,
    }
}

/// The tokens of what a node puts on the wire.
pub open spec fn tokens_of(emit: Seq<Emission>) -> Seq<Token> {
    Seq::new(emit.len(), |k: int| emit[k].token)
}

/// A node that writes to a side moves as the writer of that link moves.
///
/// When the write begins, the node's peer and what it sends are those of the
/// writer that begins to send. With every line that the node then reads, they
/// are those of the writer that reads the same line; the node reports a
/// violation exactly if the writer finds the line forbidden, and its write is
/// done exactly when the writer has nothing in hand any more. So what is
/// proved of the writer of a link holds of every node that writes.
pub proof fn node_writes_as_the_writer(node: NodeView, side: Side, value: i32, link: Traffic)
    requires
        node.wf(),
        link.writer == node.peers[side.spec_index()],
        link.sending == sending_of(node.pending),
        node.is_idle() || (writes_to(node.pending, side) && link.enabled(Move::WriterReads)),
    ensures
        node.is_idle() ==> {
            let outcome = node.write(value, Register::Side(side));
            let after = link.step(Move::Send(value)).unwrap();
            &&& outcome.node.peers[side.spec_index()] == after.writer
            &&& sending_of(outcome.node.pending) == after.sending
            &&& link.to_reader + tokens_of(outcome.emit) == after.to_reader
            &&& outcome.next == Next::Receive(side)
        },
        !node.is_idle() ==> {
            let outcome = node.on_line(link.to_writer[0].line());
            let after = link.step(Move::WriterReads);
            &&& outcome is Some <==> after is Some
            &&& outcome is Some ==> {
                &&& outcome.unwrap().node.peers[side.spec_index()] == after.unwrap().writer
                &&& sending_of(outcome.unwrap().node.pending) == after.unwrap().sending
                &&& link.to_reader + tokens_of(outcome.unwrap().emit) == after.unwrap().to_reader
                &&& outcome.unwrap().next == Next::Written <==> after.unwrap().sending is Idle
            }
        },
{
    if node.is_idle() {
        let outcome = node.write(value, Register::Side(side));
        let after = link.step(Move::Send(value)).unwrap();
        assert(link.to_reader + tokens_of(outcome.emit) =~= after.to_reader);
    } else {
        let outcome = node.on_line(link.to_writer[0].line());
        let after = link.step(Move::WriterReads);
        if outcome is Some {
            assert(link.to_reader + tokens_of(outcome.unwrap().emit) =~= after.unwrap().to_reader);
        }
    }
}

/// A node that reads from a side moves as the reader of that link moves.
///
/// When the read begins, the node's peer and what it sends are those of the
/// reader that asks. With every line that the node then reads, they are those
/// of the reader that reads the same line; the node reports a violation
/// exactly if the reader finds the line forbidden, and it ends the read with
/// exactly the value that the reader delivers. So what is proved of the
/// reader of a link holds of every node that reads.
pub proof fn node_reads_as_the_reader(node: NodeView, side: Side, link: Traffic)
    requires
        node.wf(),
        link.reader == node.peers[side.spec_index()],
        node.is_idle() || (reads_from(node.pending, side) && link.enabled(Move::ReaderReads)),
    ensures
        node.is_idle() ==> {
            let outcome = node.read(Register::Side(side));
            let after = link.step(Move::Request).unwrap();
            &&& outcome.node.peers[side.spec_index()] == after.reader
            &&& link.to_writer + tokens_of(outcome.emit) == after.to_writer
            &&& outcome.next == Next::Receive(side)
        },
        !node.is_idle() ==> {
            let outcome = node.on_line(link.to_reader[0].line());
            let after = link.step(Move::ReaderReads);
            &&& outcome is Some <==> after is Some
            &&& outcome is Some ==> {
                &&& outcome.unwrap().node.peers[side.spec_index()] == after.unwrap().reader
                &&& link.to_writer + tokens_of(outcome.unwrap().emit) == after.unwrap().to_writer
                &&& match outcome.unwrap().next {
                    Next::Value(value) => after.unwrap().delivered == link.delivered.push(value),
                    next => next == Next::Receive(side) && after.unwrap().delivered
                        == link.delivered,
                }
            }
        },
{
    if node.is_idle() {
        let outcome = node.read(Register::Side(side));
        let after = link.step(Move::Request).unwrap();
        assert(link.to_writer + tokens_of(outcome.emit) =~= after.to_writer);
    } else {
        let outcome = node.on_line(link.to_reader[0].line());
        let after = link.step(Move::ReaderReads);
        if outcome is Some {
            assert(link.to_writer + tokens_of(outcome.unwrap().emit) =~= after.unwrap().to_writer);
        }
    }
}

} // verus!
