//! The node as a state machine.
//!
//! A node is four handshakes, two registers, the side of the last wildcard
//! transfer, and the operation under way. It moves when an operation starts,
//! when a line arrives from a neighbour, and when the inbound pipes are found
//! ready. Each move gives the tokens to put on the wire and the next thing to
//! wait for. The functions here say what each move is; `Node` carries them out.

use crate::peer::{emitted, Awaiting, Emission, Handshake, ProtocolViolation};
use crate::side::Side;
use crate::token::Token;
use vstd::prelude::*;

verus! {

/// A place to write a value to or read one from.
#[derive(Clone, Copy, PartialEq, Eq, Debug, Structural)]
pub enum Register {
    /// The accumulator.
    Acc,
    /// The backup register.
    Bak,
    /// Takes any value and forgets it; reads as zero.
    Nil,
    /// The neighbour on one side.
    Side(Side),
    /// Whichever neighbour is ready first.
    Any,
    /// The neighbour that the last wildcard transfer went to or came from; like
    /// `Nil` before the first such transfer.
    Last,
}

/// What the caller does after a move of the node.
#[derive(Clone, Copy, PartialEq, Eq, Debug, Structural)]
pub enum Next {
    /// Read the next line from this side and hand it to `on_line`.
    Receive(Side),
    /// Wait until an inbound pipe is readable and hand the four findings to
    /// `on_ready`.
    Wait,
    /// The write is done.
    Written,
    /// The read is done, with this value.
    Value(i32),
}

/// How the neighbour of an attempt to send was chosen, which decides where the
/// next attempt goes when this one fails.
#[derive(Clone, Copy, PartialEq, Eq, Debug)]
pub enum Scan {
    /// The caller named the side: the next attempt is on the same side.
    Direct,
    /// A wildcard write found that this neighbour had asked already: the next
    /// attempt is on the next neighbour that has asked too.
    Noted,
    /// A wildcard write found this neighbour's pipe ready: the next attempt is
    /// on the next side found ready in the same pass.
    Polled([bool; 4]),
}

/// The operation under way.
#[derive(Clone, Copy, PartialEq, Eq, Debug)]
pub enum Pending {
    /// None.
    Idle,
    /// A value is being sent on a side. It is `offered` once it is on the
    /// wire; before that the neighbour's request is waited for.
    Sending { side: Side, value: i32, offered: bool, scan: Scan },
    /// A value is being read from a side, named by the caller or found ready,
    /// with the other findings of the same pass, by a wildcard read.
    Reading { side: Side, polled: Option<[bool; 4]> },
    /// A wildcard write waits for a pipe to become ready.
    WaitingToSend { value: i32 },
    /// A wildcard read waits for a pipe to become ready.
    WaitingToRead,
}

/// The state of a node.
pub struct NodeView {
    /// The handshakes with the four neighbours, by the number of the side.
    pub peers: Seq<Handshake>,
    pub acc: i32,
    pub bak: i32,
    /// The side of the last wildcard transfer.
    pub last: Option<Side>,
    pub pending: Pending,
}

/// The result of a move: the new state, the tokens to put on the wire in
/// order, and what to do next.
pub struct Outcome {
    pub node: NodeView,
    pub emit: Seq<Emission>,
    pub next: Next,
}

/// The first place at or after `from` where a flag is set, or the number of
/// flags if there is none.
pub open spec fn first_from(flags: Seq<bool>, from: int) -> int
    decreases flags.len() - from,
{
    if from < 0 || from >= flags.len() {
        flags.len() as int
    } else if flags[from] {
        from
    } else {
        first_from(flags, from + 1)
    }
}

/// The handshakes after each has asked for a value.
pub open spec fn request_all(peers: Seq<Handshake>) -> Seq<Handshake> {
    Seq::new(peers.len(), |i: int| peers[i].request())
}

/// The requests that go out when the first `k` peers ask for a value: a `GET`
/// for each that has none out, in the order of the sides.
pub open spec fn requests(peers: Seq<Handshake>, k: int) -> Seq<Emission>
    decreases k,
{
    if k <= 0 {
        Seq::empty()
    } else {
        requests(peers, k - 1) + emitted(
            !peers[k - 1].sent_get,
            Side::spec_from_index(k - 1),
            Token::Get,
        )
    }
}

/// The handshakes after each has withdrawn its request.
pub open spec fn cancel_all(peers: Seq<Handshake>) -> Seq<Handshake> {
    Seq::new(peers.len(), |i: int| peers[i].cancel())
}

/// The withdrawals that go out when the first `k` peers withdraw: a `NAK` for
/// each that has a request out, in the order of the sides.
pub open spec fn retractions(peers: Seq<Handshake>, k: int) -> Seq<Emission>
    decreases k,
{
    if k <= 0 {
        Seq::empty()
    } else {
        retractions(peers, k - 1) + emitted(
            peers[k - 1].sent_get,
            Side::spec_from_index(k - 1),
            Token::Nak,
        )
    }
}

impl NodeView {
    /// The state of a node on which nothing has happened.
    pub open spec fn fresh() -> NodeView {
        NodeView {
            peers: Seq::new(4, |i: int| Handshake::fresh()),
            acc: 0,
            bak: 0,
            last: None,
            pending: Pending::Idle,
        }
    }

    /// No peer has a request out.
    pub open spec fn none_requested(self) -> bool {
        forall|i: int| 0 <= i < 4 ==> !(#[trigger] self.peers[i]).sent_get
    }

    /// Every peer has a request out, and room to count its withdrawal.
    pub open spec fn all_requested(self) -> bool {
        forall|i: int|
            0 <= i < 4 ==> (#[trigger] self.peers[i]).sent_get && self.peers[i].cancelled_gets
                < usize::MAX
    }

    /// Every peer has room to count one more withdrawn request.
    pub open spec fn can_retract(self) -> bool {
        forall|i: int| 0 <= i < 4 ==> (#[trigger] self.peers[i]).cancelled_gets < usize::MAX
    }

    /// What holds of a node between any two moves: there are four peers, and
    /// requests are out exactly where the operation under way has made them. A
    /// peer that sends has no request out, and a peer that reads has one.
    pub open spec fn wf(self) -> bool {
        &&& self.peers.len() == 4
        &&& match self.pending {
            Pending::Idle => self.none_requested(),
            Pending::Sending { .. } => self.none_requested(),
            Pending::WaitingToSend { .. } => self.none_requested(),
            Pending::Reading { side, polled: None } => forall|i: int|
                0 <= i < 4 ==> ((#[trigger] self.peers[i]).sent_get <==> i == side.spec_index()),
            Pending::Reading { polled: Some(_), .. } => self.all_requested(),
            Pending::WaitingToRead => self.all_requested(),
        }
    }

    /// Whether no operation is under way.
    pub open spec fn is_idle(self) -> bool {
        self.pending is Idle
    }

    /// Whether the node waits for a line from a neighbour.
    pub open spec fn awaits_line(self) -> bool {
        self.pending is Sending || self.pending is Reading
    }

    /// Whether the node waits for the pipes to become ready.
    pub open spec fn awaits_ready(self) -> bool {
        self.pending is WaitingToSend || self.pending is WaitingToRead
    }

    /// The side that a register stands for, if it stands for a neighbour.
    pub open spec fn route(self, target: Register) -> Option<Side> {
        match target {
            Register::Side(side) => Some(side),
            Register::Last => self.last,
            _ => None,
        }
    }

    /// For each peer, whether the neighbour has asked for a value.
    pub open spec fn noted(self) -> Seq<bool> {
        Seq::new(4, |i: int| self.peers[i].got_get)
    }

    /// The state with one handshake replaced.
    pub open spec fn with_peer(self, i: int, peer: Handshake) -> NodeView {
        NodeView { peers: self.peers.update(i, peer), ..self }
    }

    /// An operation ends at once, with nothing on the wire.
    pub open spec fn done(self, next: Next) -> Outcome {
        Outcome { node: self, emit: Seq::empty(), next }
    }

    /// An attempt to send on `side` begins: the value goes out if the
    /// neighbour has asked already, and the next line comes from that side.
    pub open spec fn attempt(self, side: Side, value: i32, scan: Scan) -> Outcome {
        let i = side.spec_index();
        let (peer, offered) = self.peers[i].offer();
        Outcome {
            node: NodeView {
                peers: self.peers.update(i, peer),
                pending: Pending::Sending { side, value, offered, scan },
                ..self
            },
            emit: emitted(offered, side, Token::Value(value)),
            next: Next::Receive(side),
        }
    }

    /// A wildcard write goes through the sides whose flag is set, from `from`
    /// on: it attempts the first, or waits for the pipes if there is none.
    pub open spec fn send_scan(
        self,
        flags: Seq<bool>,
        from: int,
        value: i32,
        scan: Scan,
    ) -> Outcome {
        let i = first_from(flags, from);
        if i < 4 {
            self.attempt(Side::spec_from_index(i), value, scan)
        } else {
            Outcome {
                node: NodeView { pending: Pending::WaitingToSend { value }, ..self },
                emit: Seq::empty(),
                next: Next::Wait,
            }
        }
    }

    /// The attempt to send on `side` has failed: where the next one goes.
    pub open spec fn send_next(self, side: Side, value: i32, scan: Scan) -> Outcome {
        match scan {
            Scan::Direct => self.attempt(side, value, scan),
            Scan::Noted => self.send_scan(self.noted(), side.spec_index() + 1, value, scan),
            Scan::Polled(ready) => self.send_scan(ready@, side.spec_index() + 1, value, scan),
        }
    }

    /// The value has arrived on `side`. A wildcard write remembers the side.
    pub open spec fn sent(self, side: Side, scan: Scan) -> Outcome {
        let last = if scan is Direct {
            self.last
        } else {
            Some(side)
        };
        Outcome {
            node: NodeView { last, pending: Pending::Idle, ..self },
            emit: Seq::empty(),
            next: Next::Written,
        }
    }

    /// A write begins. The registers take the value at once, `Nil` and an
    /// unset `Last` drop it, a side sends it to that neighbour, and `Any`
    /// tries the neighbours that have asked already before it waits.
    pub open spec fn write(self, value: i32, target: Register) -> Outcome {
        match target {
            Register::Acc => NodeView { acc: value, ..self }.done(Next::Written),
            Register::Bak => NodeView { bak: value, ..self }.done(Next::Written),
            Register::Any => self.send_scan(self.noted(), 0, value, Scan::Noted),
            _ => match self.route(target) {
                Some(side) => self.attempt(side, value, Scan::Direct),
                None => self.done(Next::Written),
            },
        }
    }

    /// A read from one side begins: `GET` goes out unless a request is out
    /// already, and the next line comes from that side.
    pub open spec fn read_from(self, side: Side) -> Outcome {
        let i = side.spec_index();
        Outcome {
            node: NodeView {
                peers: self.peers.update(i, self.peers[i].request()),
                pending: Pending::Reading { side, polled: None },
                ..self
            },
            emit: emitted(!self.peers[i].sent_get, side, Token::Get),
            next: Next::Receive(side),
        }
    }

    /// A pass of a wildcard read begins: every peer asks, and the node waits
    /// for the pipes.
    pub open spec fn read_any(self) -> Outcome {
        Outcome {
            node: NodeView {
                peers: request_all(self.peers),
                pending: Pending::WaitingToRead,
                ..self
            },
            emit: requests(self.peers, 4),
            next: Next::Wait,
        }
    }

    /// A wildcard read goes through the sides found ready, from `from` on: it
    /// reads from the first, or begins a new pass if there is none.
    pub open spec fn read_scan(self, ready: [bool; 4], from: int) -> Outcome {
        let i = first_from(ready@, from);
        if i < 4 {
            let side = Side::spec_from_index(i);
            Outcome {
                node: NodeView { pending: Pending::Reading { side, polled: Some(ready) }, ..self },
                emit: Seq::empty(),
                next: Next::Receive(side),
            }
        } else {
            self.read_any()
        }
    }

    /// A value has been delivered on `side` and acknowledged. A wildcard read
    /// remembers the side and withdraws the requests to all other peers.
    pub open spec fn delivered(self, side: Side, value: i32, polled: Option<[bool; 4]>) -> Outcome {
        let ack = emitted(true, side, Token::Ack);
        if polled is Some {
            Outcome {
                node: NodeView {
                    peers: cancel_all(self.peers),
                    last: Some(side),
                    pending: Pending::Idle,
                    ..self
                },
                emit: ack + retractions(self.peers, 4),
                next: Next::Value(value),
            }
        } else {
            Outcome {
                node: NodeView { pending: Pending::Idle, ..self },
                emit: ack,
                next: Next::Value(value),
            }
        }
    }

    /// A read begins. The registers give their value, `Nil` and an unset
    /// `Last` give zero, a side asks that neighbour, and `Any` asks all.
    pub open spec fn read(self, target: Register) -> Outcome {
        match target {
            Register::Acc => self.done(Next::Value(self.acc)),
            Register::Bak => self.done(Next::Value(self.bak)),
            Register::Any => self.read_any(),
            _ => match self.route(target) {
                Some(side) => self.read_from(side),
                None => self.done(Next::Value(0)),
            },
        }
    }

    /// The pipes have been found ready or not, side by side. A wildcard write
    /// attempts the first ready side, a wildcard read reads from it; with none
    /// ready the wait goes on.
    pub open spec fn on_ready(self, ready: [bool; 4]) -> Outcome {
        match self.pending {
            Pending::WaitingToSend { value } => self.send_scan(
                ready@,
                0,
                value,
                Scan::Polled(ready),
            ),
            Pending::WaitingToRead => self.read_scan(ready, 0),
            _ => self.done(Next::Wait),
        }
    }

    /// The side that the node waits on for a line, and what it waits for.
    pub open spec fn expects(self) -> (Side, Awaiting) {
        match self.pending {
            Pending::Sending { side, offered, .. } => (
                side,
                if offered {
                    Awaiting::Reply
                } else {
                    Awaiting::Request
                },
            ),
            Pending::Reading { side, .. } => (side, Awaiting::Value),
            _ => (Side::Left, Awaiting::Value),
        }
    }

    /// Whether a violation reports the given line as it arrived in this state:
    /// on the side that the node waits on, with that peer's handshake.
    pub open spec fn rejects(self, e: ProtocolViolation, line: Seq<u8>) -> bool {
        e.reports(
            self.expects().0,
            self.expects().1,
            line,
            self.peers[self.expects().0.spec_index()],
        )
    }

    /// A line has arrived from the side that the node waits on. The result is
    /// nothing if the protocol does not allow the line in this state.
    ///
    /// While a value waits for the neighbour's request: `GET` lets it go out.
    /// While it waits for the reply: `ACK` ends the write. Any other allowed
    /// line fails the attempt, and the next attempt follows.
    ///
    /// While a read waits: a value that is delivered ends the read. Any other
    /// allowed line delivers nothing; a read from one side then reads on, a
    /// wildcard read goes to the next ready side.
    pub open spec fn on_line(self, line: Seq<u8>) -> Option<Outcome> {
        match self.pending {
            Pending::Sending { side, value, offered, scan } => {
                let i = side.spec_index();
                if offered {
                    match Handshake::reply_step(line) {
                        Some(true) => Some(self.sent(side, scan)),
                        Some(false) => Some(self.send_next(side, value, scan)),
                        None => None,
                    }
                } else {
                    match self.peers[i].request_step(line) {
                        Some((peer, true)) => Some(
                            Outcome {
                                node: NodeView {
                                    peers: self.peers.update(i, peer),
                                    pending: Pending::Sending { side, value, offered: true, scan },
                                    ..self
                                },
                                emit: emitted(true, side, Token::Value(value)),
                                next: Next::Receive(side),
                            },
                        ),
                        Some((peer, false)) => Some(
                            self.with_peer(i, peer).send_next(side, value, scan),
                        ),
                        None => None,
                    }
                }
            },
            Pending::Reading { side, polled } => {
                let i = side.spec_index();
                match self.peers[i].read_step(line) {
                    Some((peer, Some(value))) => Some(
                        self.with_peer(i, peer).delivered(side, value, polled),
                    ),
                    Some((peer, None)) => match polled {
                        Some(ready) => Some(self.with_peer(i, peer).read_scan(ready, i + 1)),
                        None => Some(
                            Outcome {
                                node: self.with_peer(i, peer),
                                emit: Seq::empty(),
                                next: Next::Receive(side),
                            },
                        ),
                    },
                    None => None,
                }
            },
            _ => None,
        }
    }
}

/// The place that a scan finds lies between its start and the number of flags,
/// its flag is set, and no flag between the start and it is.
pub proof fn first_from_is_first(flags: Seq<bool>, from: int)
    requires
        0 <= from <= flags.len(),
    ensures
        from <= first_from(flags, from) <= flags.len(),
        first_from(flags, from) < flags.len() ==> flags[first_from(flags, from)],
        forall|j: int| from <= j < first_from(flags, from) ==> !flags[j],
    decreases flags.len() - from,
{
    if from < flags.len() && !flags[from] {
        first_from_is_first(flags, from + 1);
    }
}

impl NodeView {
    /// A scan for the next attempt leaves every request as it was.
    proof fn send_scan_keeps_wf(self, flags: Seq<bool>, from: int, value: i32, scan: Scan)
        requires
            self.peers.len() == 4,
            self.none_requested(),
            flags.len() == 4,
            0 <= from <= 4,
        ensures
            self.send_scan(flags, from, value, scan).node.wf(),
    {
        first_from_is_first(flags, from);
    }

    /// The next attempt after a failed one leaves every request as it was.
    proof fn send_next_keeps_wf(self, side: Side, value: i32, scan: Scan)
        requires
            self.peers.len() == 4,
            self.none_requested(),
        ensures
            self.send_next(side, value, scan).node.wf(),
    {
        match scan {
            Scan::Direct => {},
            Scan::Noted => self.send_scan_keeps_wf(
                self.noted(),
                side.spec_index() + 1,
                value,
                scan,
            ),
            Scan::Polled(ready) => self.send_scan_keeps_wf(
                ready@,
                side.spec_index() + 1,
                value,
                scan,
            ),
        }
    }

    /// A scan of a wildcard read keeps every request out.
    proof fn read_scan_keeps_wf(self, ready: [bool; 4], from: int)
        requires
            self.peers.len() == 4,
            self.all_requested(),
            0 <= from <= 4,
        ensures
            self.read_scan(ready, from).node.wf(),
    {
        first_from_is_first(ready@, from);
    }

    /// A write that begins on an idle node leaves the node well formed.
    pub proof fn write_keeps_wf(self, value: i32, target: Register)
        requires
            self.wf(),
            self.is_idle(),
        ensures
            self.write(value, target).node.wf(),
    {
        self.send_scan_keeps_wf(self.noted(), 0, value, Scan::Noted);
    }

    /// A read that begins on an idle node leaves the node well formed. A
    /// wildcard read needs room in every peer to count a withdrawn request.
    pub proof fn read_keeps_wf(self, target: Register)
        requires
            self.wf(),
            self.is_idle(),
            target == Register::Any ==> self.can_retract(),
        ensures
            self.read(target).node.wf(),
    {
    }

    /// The findings of a wait leave the node well formed, and the operation
    /// goes on.
    pub proof fn on_ready_keeps_wf(self, ready: [bool; 4])
        requires
            self.wf(),
            self.awaits_ready(),
        ensures
            self.on_ready(ready).node.wf(),
            !self.on_ready(ready).node.is_idle(),
    {
        first_from_is_first(ready@, 0);
    }

    /// A line that the protocol allows leaves the node well formed.
    pub proof fn on_line_keeps_wf(self, line: Seq<u8>)
        requires
            self.wf(),
            self.awaits_line(),
        ensures
            self.on_line(line) matches Some(outcome) ==> outcome.node.wf(),
    {
        match self.pending {
            Pending::Sending { side, value, offered, scan } => {
                let i = side.spec_index();
                if offered {
                    self.send_next_keeps_wf(side, value, scan);
                } else {
                    match self.peers[i].request_step(line) {
                        Some((peer, false)) => {
                            self.with_peer(i, peer).send_next_keeps_wf(side, value, scan);
                        },
                        _ => {},
                    }
                }
            },
            Pending::Reading { side, polled: Some(ready) } => {
                let i = side.spec_index();
                match self.peers[i].read_step(line) {
                    Some((peer, None)) => {
                        self.with_peer(i, peer).read_scan_keeps_wf(ready, i + 1);
                    },
                    _ => {},
                }
            },
            _ => {},
        }
    }
}

} // verus!
