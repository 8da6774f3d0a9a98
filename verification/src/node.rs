//! The node: four peers, two registers, and the routing between them.

use crate::layout::{block_base, End, Link, MAX_BASE};
use crate::model::{
    cancel_all, first_from, request_all, requests, retractions, Next, NodeView, Outcome, Pending,
    Register, Scan,
};
use crate::peer::{emitted, Emission, Handshake, Peer, ProtocolViolation};
use crate::side::Side;
use crate::token::Token;
use vstd::pervasive::unreached;
use vstd::prelude::*;

verus! {

/// The process ids of the neighbours that are running already, side by side.
/// A link to such a neighbour attaches to its pipes; every other link makes
/// its own.
#[derive(Clone, Copy, Debug)]
pub struct PeerPids {
    pub left: Option<i32>,
    pub right: Option<i32>,
    pub up: Option<i32>,
    pub down: Option<i32>,
}

impl PeerPids {
    /// The process id of the neighbour on a side, if there is one.
    pub open spec fn spec_get(self, side: Side) -> Option<i32> {
        match side {
            Side::Left => self.left,
            Side::Right => self.right,
            Side::Up => self.up,
            Side::Down => self.down,
        }
    }

    /// The process id of the neighbour on a side, if there is one.
    pub fn get(&self, side: Side) -> (pid: Option<i32>)
        ensures
            pid == self.spec_get(side),
    {
        match side {
            Side::Left => self.left,
            Side::Right => self.right,
            Side::Up => self.up,
            Side::Down => self.down,
        }
    }
}

/// The answer of a node to one move: the tokens to put on the wire, in order,
/// and what to do after that.
#[derive(Clone, PartialEq, Eq, Debug)]
pub struct Step {
    pub emit: Vec<Emission>,
    pub next: Next,
}

impl Step {
    /// Whether the step is what the outcome of a move says.
    pub open spec fn carries(self, outcome: Outcome) -> bool {
        &&& self.emit@ == outcome.emit
        &&& self.next == outcome.next
    }
}

/// The handshakes of four peers, by the number of the side.
pub open spec fn handshakes(peers: [Peer; 4]) -> Seq<Handshake> {
    Seq::new(4, |i: int| peers[i]@)
}

/// The input descriptors of four peers, by `arraymap::ArrayMap::map`, which
/// hands each element of an array to a function, first to last, and gives the
/// array of the results in the same order.
#[verifier::external_body]
fn map_input_fds(peers: &[Peer; 4]) -> (fds: [i32; 4])
    ensures
        forall|i: int|
            0 <= i < 4 ==> #[trigger] fds[i] == peers[i].spec_link().spec_descriptor(
                End::InputRead,
            ),
{
    arraymap::ArrayMap::map(peers, |peer: &Peer| peer.input_fd())
}

/// The working state of a node.
#[derive(Clone, Copy, Debug)]
struct Core {
    peers: [Peer; 4],
    acc: i32,
    bak: i32,
    last: Option<Side>,
    pending: Pending,
}

impl Core {
    spec fn view(self) -> NodeView {
        NodeView {
            peers: handshakes(self.peers),
            acc: self.acc,
            bak: self.bak,
            last: self.last,
            pending: self.pending,
        }
    }

    /// Each peer sits at the place of its side.
    spec fn placed(self) -> bool {
        forall|i: int|
            0 <= i < 4 ==> (#[trigger] self.peers[i]).spec_side() == Side::spec_from_index(i)
    }

    /// The links are those of `before`.
    spec fn same_links(self, before: Core) -> bool {
        forall|i: int|
            0 <= i < 4 ==> (#[trigger] self.peers[i]).spec_link() == before.peers[i].spec_link()
    }

    /// All but the peers and the operation under way is as in `before`.
    spec fn same_registers(self, before: Core) -> bool {
        &&& self.acc == before.acc
        &&& self.bak == before.bak
        &&& self.last == before.last
    }

    /// Whether one move has led from `before` to this state as the outcome
    /// says, with the outcome's tokens added to the wire.
    spec fn moved(
        self,
        before: Core,
        outcome: Outcome,
        next: Next,
        wire_before: Seq<Emission>,
        wire: Seq<Emission>,
    ) -> bool {
        &&& self.view() == outcome.node
        &&& next == outcome.next
        &&& wire == wire_before + outcome.emit
        &&& self.same_links(before)
    }

    /// For each peer, whether the neighbour has asked for a value.
    fn noted(&self) -> (flags: [bool; 4])
        ensures
            flags@ == self.view().noted(),
    {
        let flags = [
            self.peers[0].got_get(),
            self.peers[1].got_get(),
            self.peers[2].got_get(),
            self.peers[3].got_get(),
        ];
        flags
    }

    /// Begins an attempt to send on one side.
    fn attempt(&mut self, side: Side, value: i32, scan: Scan, wire: &mut Vec<Emission>) -> (next:
        Next)
        requires
            old(self).placed(),
            old(self).view().none_requested(),
        ensures
            final(self).moved(
                *old(self),
                old(self).view().attempt(side, value, scan),
                next,
                old(wire)@,
                final(wire)@,
            ),
    {
        let i = side.index();
        let offered = self.peers[i].try_send(value, wire);
        self.pending = Pending::Sending { side, value, offered, scan };
        assert(self.view().peers =~= old(self).view().peers.update(
            i as int,
            self.peers[i as int]@,
        ));
        Next::Receive(side)
    }

    /// Attempts to send on the first flagged side from `from` on, or waits for
    /// the pipes.
    fn send_scan(
        &mut self,
        flags: [bool; 4],
        from: usize,
        value: i32,
        scan: Scan,
        wire: &mut Vec<Emission>,
    ) -> (next: Next)
        requires
            old(self).placed(),
            old(self).view().none_requested(),
            from <= 4,
        ensures
            final(self).moved(
                *old(self),
                old(self).view().send_scan(flags@, from as int, value, scan),
                next,
                old(wire)@,
                final(wire)@,
            ),
    {
        let mut i: usize = from;
        while i < 4
            invariant
                from <= i <= 4,
                *self == *old(self),
                wire@ == old(wire)@,
                self.placed(),
                self.view().none_requested(),
                first_from(flags@, from as int) == first_from(flags@, i as int),
            decreases 4 - i,
        {
            if flags[i] {
                return self.attempt(Side::from_index(i), value, scan, wire);
            }
            i = i + 1;
        }
        self.pending = Pending::WaitingToSend { value };
        Next::Wait
    }

    /// A wildcard write begins: the neighbours that have asked already are
    /// tried first, in the order of the sides.
    fn write_any(&mut self, value: i32, wire: &mut Vec<Emission>) -> (next: Next)
        requires
            old(self).placed(),
            old(self).view().none_requested(),
        ensures
            final(self).moved(
                *old(self),
                old(self).view().write(value, Register::Any),
                next,
                old(wire)@,
                final(wire)@,
            ),
    {
        let flags = self.noted();
        self.send_scan(flags, 0, value, Scan::Noted, wire)
    }

    /// After a failed attempt on `side`: makes the next attempt.
    fn send_next(&mut self, side: Side, value: i32, scan: Scan, wire: &mut Vec<Emission>) -> (next:
        Next)
        requires
            old(self).placed(),
            old(self).view().none_requested(),
        ensures
            final(self).moved(
                *old(self),
                old(self).view().send_next(side, value, scan),
                next,
                old(wire)@,
                final(wire)@,
            ),
    {
        match scan {
            Scan::Direct => self.attempt(side, value, scan, wire),
            Scan::Noted => {
                let flags = self.noted();
                self.send_scan(flags, side.index() + 1, value, scan, wire)
            },
            Scan::Polled(ready) => self.send_scan(ready, side.index() + 1, value, scan, wire),
        }
    }

    /// A read from one side begins.
    fn read_from(&mut self, side: Side, wire: &mut Vec<Emission>) -> (next: Next)
        requires
            old(self).placed(),
        ensures
            final(self).moved(
                *old(self),
                old(self).view().read_from(side),
                next,
                old(wire)@,
                final(wire)@,
            ),
    {
        let i = side.index();
        self.peers[i].request_read(wire);
        self.pending = Pending::Reading { side, polled: None };
        assert(self.view().peers =~= old(self).view().peers.update(
            i as int,
            old(self).view().peers[i as int].request(),
        ));
        Next::Receive(side)
    }

    /// A pass of a wildcard read begins: every peer asks for a value.
    fn read_any(&mut self, wire: &mut Vec<Emission>) -> (next: Next)
        requires
            old(self).placed(),
        ensures
            final(self).moved(
                *old(self),
                old(self).view().read_any(),
                next,
                old(wire)@,
                final(wire)@,
            ),
    {
        let ghost before = self.view().peers;
        let mut i: usize = 0;
        while i < 4
            invariant
                i <= 4,
                before == old(self).view().peers,
                self.placed(),
                self.same_links(*old(self)),
                self.same_registers(*old(self)),
                forall|j: int| 0 <= j < i ==> (#[trigger] self.peers[j])@ == before[j].request(),
                forall|j: int| i <= j < 4 ==> (#[trigger] self.peers[j])@ == before[j],
                wire@ == old(wire)@ + requests(before, i as int),
            decreases 4 - i,
        {
            self.peers[i].request_read(wire);
            i = i + 1;
        }
        self.pending = Pending::WaitingToRead;
        assert(self.view().peers =~= request_all(before));
        Next::Wait
    }

    /// Reads from the first ready side from `from` on, or begins a new pass.
    fn read_scan(&mut self, ready: [bool; 4], from: usize, wire: &mut Vec<Emission>) -> (next: Next)
        requires
            old(self).placed(),
            from <= 4,
        ensures
            final(self).moved(
                *old(self),
                old(self).view().read_scan(ready, from as int),
                next,
                old(wire)@,
                final(wire)@,
            ),
    {
        let mut i: usize = from;
        while i < 4
            invariant
                from <= i <= 4,
                *self == *old(self),
                wire@ == old(wire)@,
                self.placed(),
                first_from(ready@, from as int) == first_from(ready@, i as int),
            decreases 4 - i,
        {
            if ready[i] {
                let side = Side::from_index(i);
                self.pending = Pending::Reading { side, polled: Some(ready) };
                return Next::Receive(side);
            }
            i = i + 1;
        }
        self.read_any(wire)
    }

    /// Withdraws every request that is out.
    fn cancel_all(&mut self, wire: &mut Vec<Emission>)
        requires
            old(self).placed(),
            forall|j: int|
                0 <= j < 4 && (#[trigger] old(self).view().peers[j]).sent_get ==> old(
                    self,
                ).view().peers[j].cancelled_gets < usize::MAX,
        ensures
            final(self).view().peers == cancel_all(old(self).view().peers),
            final(wire)@ == old(wire)@ + retractions(old(self).view().peers, 4),
            final(self).same_links(*old(self)),
            final(self).same_registers(*old(self)),
            final(self).pending == old(self).pending,
    {
        let ghost before = self.view().peers;
        let mut i: usize = 0;
        while i < 4
            invariant
                i <= 4,
                before == old(self).view().peers,
                self.placed(),
                self.same_links(*old(self)),
                self.same_registers(*old(self)),
                self.pending == old(self).pending,
                forall|j: int|
                    0 <= j < 4 && (#[trigger] before[j]).sent_get ==> before[j].cancelled_gets
                        < usize::MAX,
                forall|j: int| 0 <= j < i ==> (#[trigger] self.peers[j])@ == before[j].cancel(),
                forall|j: int| i <= j < 4 ==> (#[trigger] self.peers[j])@ == before[j],
                wire@ == old(wire)@ + retractions(before, i as int),
            decreases 4 - i,
        {
            self.peers[i].cancel_read(wire);
            i = i + 1;
        }
    }

    /// A write begins.
    fn write(&mut self, value: i32, target: Register, wire: &mut Vec<Emission>) -> (next: Next)
        requires
            old(self).placed(),
            old(self).view().none_requested(),
        ensures
            final(self).moved(
                *old(self),
                old(self).view().write(value, target),
                next,
                old(wire)@,
                final(wire)@,
            ),
    {
        match target {
            Register::Acc => {
                self.acc = value;
                Next::Written
            },
            Register::Bak => {
                self.bak = value;
                Next::Written
            },
            Register::Nil => Next::Written,
            Register::Side(side) => self.attempt(side, value, Scan::Direct, wire),
            Register::Last => match self.last {
                Some(side) => self.attempt(side, value, Scan::Direct, wire),
                None => Next::Written,
            },
            Register::Any => self.write_any(value, wire),
        }
    }

    /// A read begins.
    fn read(&mut self, target: Register, wire: &mut Vec<Emission>) -> (next: Next)
        requires
            old(self).placed(),
        ensures
            final(self).moved(
                *old(self),
                old(self).view().read(target),
                next,
                old(wire)@,
                final(wire)@,
            ),
    {
        match target {
            Register::Acc => Next::Value(self.acc),
            Register::Bak => Next::Value(self.bak),
            Register::Nil => Next::Value(0),
            Register::Side(side) => self.read_from(side, wire),
            Register::Last => match self.last {
                Some(side) => self.read_from(side, wire),
                None => Next::Value(0),
            },
            Register::Any => self.read_any(wire),
        }
    }

    /// The pipes have been found ready or not.
    fn on_ready(&mut self, ready: [bool; 4], wire: &mut Vec<Emission>) -> (next: Next)
        requires
            old(self).placed(),
            old(self).view().wf(),
            old(self).view().awaits_ready(),
        ensures
            final(self).moved(
                *old(self),
                old(self).view().on_ready(ready),
                next,
                old(wire)@,
                final(wire)@,
            ),
    {
        match self.pending {
            Pending::WaitingToSend { value } => self.send_scan(
                ready,
                0,
                value,
                Scan::Polled(ready),
                wire,
            ),
            Pending::WaitingToRead => self.read_scan(ready, 0, wire),
            _ => unreached(),
        }
    }

    /// A line has arrived from the side that the node waits on.
    fn on_line(&mut self, line: &[u8], wire: &mut Vec<Emission>) -> (result: Result<
        Next,
        ProtocolViolation,
    >)
        requires
            old(self).placed(),
            old(self).view().wf(),
            old(self).view().awaits_line(),
        ensures
            match old(self).view().on_line(line@) {
                Some(outcome) => {
                    &&& result matches Ok(next)
                    &&& final(self).moved(*old(self), outcome, next, old(wire)@, final(wire)@)
                },
                None => {
                    &&& result matches Err(e)
                    &&& old(self).view().rejects(e, line@)
                    &&& final(self).view() == old(self).view()
                    &&& final(self).same_links(*old(self))
                    &&& final(wire)@ == old(wire)@
                },
            },
    {
        match self.pending {
            Pending::Sending { side, value, offered, scan } => {
                let i = side.index();
                if offered {
                    match self.peers[i].try_send_replied(line) {
                        Ok(true) => {
                            match scan {
                                Scan::Direct => {},
                                _ => {
                                    self.last = Some(side);
                                },
                            }
                            self.pending = Pending::Idle;
                            Ok(Next::Written)
                        },
                        Ok(false) => Ok(self.send_next(side, value, scan, wire)),
                        Err(e) => Err(e),
                    }
                } else {
                    match self.peers[i].try_send_requested(line, value, wire) {
                        Ok(true) => {
                            self.pending = Pending::Sending { side, value, offered: true, scan };
                            assert(self.view().peers =~= old(self).view().peers.update(
                                i as int,
                                self.peers[i as int]@,
                            ));
                            Ok(Next::Receive(side))
                        },
                        Ok(false) => {
                            assert(self.view().peers =~= old(self).view().peers.update(
                                i as int,
                                self.peers[i as int]@,
                            ));
                            Ok(self.send_next(side, value, scan, wire))
                        },
                        Err(e) => {
                            assert(self.view().peers =~= old(self).view().peers);
                            Err(e)
                        },
                    }
                }
            },
            Pending::Reading { side, polled } => {
                let i = side.index();
                match self.peers[i].finish_read(line, wire) {
                    Ok(Some(value)) => {
                        assert(self.view().peers =~= old(self).view().peers.update(
                            i as int,
                            self.peers[i as int]@,
                        ));
                        let ghost mid = *self;
                        match polled {
                            Some(_) => {
                                self.last = Some(side);
                                self.cancel_all(wire);
                                assert(wire@ =~= old(wire)@ + (emitted(true, side, Token::Ack)
                                    + retractions(mid.view().peers, 4)));
                            },
                            None => {},
                        }
                        self.pending = Pending::Idle;
                        Ok(Next::Value(value))
                    },
                    Ok(None) => {
                        assert(self.view().peers =~= old(self).view().peers.update(
                            i as int,
                            self.peers[i as int]@,
                        ));
                        match polled {
                            Some(ready) => Ok(self.read_scan(ready, i + 1, wire)),
                            None => {
                                // The request is still out: nothing is sent.
                                self.peers[i].request_read(wire);
                                assert(self.view().peers =~= old(self).view().peers.update(
                                    i as int,
                                    self.peers[i as int]@,
                                ));
                                Ok(Next::Receive(side))
                            },
                        }
                    },
                    Err(e) => {
                        assert(self.view().peers =~= old(self).view().peers);
                        Err(e)
                    },
                }
            },
            _ => unreached(),
        }
    }
}

/// A node of the grid: its four peers, its accumulator and backup register,
/// the side of the last wildcard transfer, and the operation under way.
///
/// A node does no I/O. `write` and `read` begin an operation and answer with a
/// `Step`: tokens to put on the wire, and what to do next. The caller writes
/// the tokens, then reads a line or waits for the pipes as the step says, and
/// hands what it got to `on_line` or `on_ready`, until a step ends the
/// operation.
#[derive(Debug)]
pub struct Node {
    core: Core,
}

impl View for Node {
    type V = NodeView;

    closed spec fn view(&self) -> NodeView {
        self.core.view()
    }
}

impl Node {
    #[verifier::type_invariant]
    spec fn sound(self) -> bool {
        &&& self.core.placed()
        &&& self.core.view().wf()
    }

    /// The peer on a side.
    pub closed spec fn spec_peer(self, side: Side) -> Peer {
        self.core.peers[side.spec_index()]
    }

    /// Whether the links of this node are those of `before`.
    pub open spec fn same_links(self, before: Node) -> bool {
        forall|side: Side| #[trigger]
            self.spec_peer(side).spec_link() == before.spec_peer(side).spec_link()
    }

    /// A node on which nothing has happened: registers at zero, no wildcard
    /// transfer yet, no operation under way, every handshake fresh. The link
    /// of each side is placed from `fd_offset`; it attaches to the neighbour
    /// whose process id is given, and makes its own pipes where none is.
    pub fn new(peers: PeerPids, fd_offset: i32) -> (node: Node)
        requires
            fd_offset <= MAX_BASE,
        ensures
            node@ == NodeView::fresh(),
            node@.wf(),
            forall|side: Side|
                {
                    let link = #[trigger] node.spec_peer(side).spec_link();
                    &&& link.spec_side() == side
                    &&& link.spec_base() == block_base(side, fd_offset as int)
                    &&& link.spec_neighbour() == match peers.spec_get(side) {
                        Some(pid) => Some(
                            (pid, block_base(side.spec_opposite(), fd_offset as int)),
                        ),
                        None => None,
                    }
                },
    {
        let core = Core {
            peers: [
                Peer::new(Side::Left, peers.left, fd_offset),
                Peer::new(Side::Right, peers.right, fd_offset),
                Peer::new(Side::Up, peers.up, fd_offset),
                Peer::new(Side::Down, peers.down, fd_offset),
            ],
            acc: 0,
            bak: 0,
            last: None,
            pending: Pending::Idle,
        };
        assert(core.view().peers =~= NodeView::fresh().peers);
        Node { core }
    }

    /// Begins a write of `value` to `target`; see `NodeView::write`.
    ///
    /// The registers take the value and `Nil` drops it, and the write is done
    /// at once. A side, or `Last` once a wildcard transfer has happened, sends
    /// the value to that neighbour, again and again until it is taken. `Any`
    /// sends it to the first neighbour that takes it and remembers the side.
    pub fn write(&mut self, value: i32, target: Register) -> (step: Step)
        requires
            old(self)@.is_idle(),
        ensures
            final(self)@ == old(self)@.write(value, target).node,
            step.carries(old(self)@.write(value, target)),
            final(self)@.wf(),
            final(self).same_links(*old(self)),
    {
        proof {
            use_type_invariant(&*self);
            self.core.view().write_keeps_wf(value, target);
        }
        let mut core = self.core;
        let mut emit: Vec<Emission> = Vec::new();
        let next = core.write(value, target, &mut emit);
        self.core = core;
        Step { emit, next }
    }

    /// Begins a read from `target`; see `NodeView::read`.
    ///
    /// The registers give their value, and `Nil` and an unset `Last` give
    /// zero, at once. A side, or `Last` once a wildcard transfer has happened,
    /// asks that neighbour and waits for its value. `Any` asks every
    /// neighbour, takes the first value that comes, remembers its side and
    /// withdraws the other requests; for that, every peer must have room to
    /// count one more withdrawn request.
    pub fn read(&mut self, target: Register) -> (step: Step)
        requires
            old(self)@.is_idle(),
            target == Register::Any ==> old(self)@.can_retract(),
        ensures
            final(self)@ == old(self)@.read(target).node,
            step.carries(old(self)@.read(target)),
            final(self)@.wf(),
            final(self).same_links(*old(self)),
    {
        proof {
            use_type_invariant(&*self);
            self.core.view().read_keeps_wf(target);
        }
        let mut core = self.core;
        let mut emit: Vec<Emission> = Vec::new();
        let next = core.read(target, &mut emit);
        self.core = core;
        Step { emit, next }
    }

    /// Takes the findings of a wait, side by side: whether the inbound pipe of
    /// each peer is readable; see `NodeView::on_ready`.
    pub fn on_ready(&mut self, ready: [bool; 4]) -> (step: Step)
        requires
            old(self)@.awaits_ready(),
        ensures
            final(self)@ == old(self)@.on_ready(ready).node,
            step.carries(old(self)@.on_ready(ready)),
            final(self)@.wf(),
            final(self).same_links(*old(self)),
    {
        proof {
            use_type_invariant(&*self);
            self.core.view().on_ready_keeps_wf(ready);
        }
        let mut core = self.core;
        let mut emit: Vec<Emission> = Vec::new();
        let next = core.on_ready(ready, &mut emit);
        self.core = core;
        Step { emit, next }
    }

    /// Takes the next line from the side that the last step named, without its
    /// line break; see `NodeView::on_line`. A line that the protocol does not
    /// allow in the present state is reported, and the node stays as it was.
    pub fn on_line(&mut self, line: &[u8]) -> (result: Result<Step, ProtocolViolation>)
        requires
            old(self)@.awaits_line(),
        ensures
            match old(self)@.on_line(line@) {
                Some(outcome) => {
                    &&& result matches Ok(step)
                    &&& step.carries(outcome)
                    &&& final(self)@ == outcome.node
                },
                None => {
                    &&& result matches Err(e)
                    &&& old(self)@.rejects(e, line@)
                    &&& final(self)@ == old(self)@
                },
            },
            final(self)@.wf(),
            final(self).same_links(*old(self)),
    {
        proof {
            use_type_invariant(&*self);
            self.core.view().on_line_keeps_wf(line@);
        }
        let mut core = self.core;
        let mut emit: Vec<Emission> = Vec::new();
        let result = core.on_line(line, &mut emit);
        match result {
            Ok(next) => {
                self.core = core;
                Ok(Step { emit, next })
            },
            Err(e) => Err(e),
        }
    }

    /// The value of the accumulator.
    pub fn acc(&self) -> (value: i32)
        ensures
            value == self@.acc,
    {
        self.core.acc
    }

    /// The value of the backup register.
    pub fn bak(&self) -> (value: i32)
        ensures
            value == self@.bak,
    {
        self.core.bak
    }

    /// The side of the last wildcard transfer, if there has been one.
    pub fn last(&self) -> (side: Option<Side>)
        ensures
            side == self@.last,
    {
        self.core.last
    }

    /// The operation under way.
    pub fn pending(&self) -> (pending: Pending)
        ensures
            pending == self@.pending,
    {
        self.core.pending
    }

    /// Whether no operation is under way, so that one may begin.
    pub fn is_idle(&self) -> (idle: bool)
        ensures
            idle == self@.is_idle(),
    {
        match self.core.pending {
            Pending::Idle => true,
            _ => false,
        }
    }

    /// Whether the node waits for a line, to be handed to `on_line`.
    pub fn awaits_line(&self) -> (yes: bool)
        ensures
            yes == self@.awaits_line(),
    {
        match self.core.pending {
            Pending::Sending { .. } => true,
            Pending::Reading { .. } => true,
            _ => false,
        }
    }

    /// Whether the node waits for the pipes, to be handed to `on_ready`.
    pub fn awaits_ready(&self) -> (yes: bool)
        ensures
            yes == self@.awaits_ready(),
    {
        match self.core.pending {
            Pending::WaitingToSend { .. } => true,
            Pending::WaitingToRead => true,
            _ => false,
        }
    }

    /// Whether every peer has room to count one more withdrawn request, as a
    /// wildcard read needs.
    pub fn can_retract(&self) -> (yes: bool)
        ensures
            yes == self@.can_retract(),
    {
        let yes = self.core.peers[0].cancelled_gets() < usize::MAX
            && self.core.peers[1].cancelled_gets() < usize::MAX
            && self.core.peers[2].cancelled_gets() < usize::MAX
            && self.core.peers[3].cancelled_gets() < usize::MAX;
        proof {
            let peers = self@.peers;
            if !yes {
                assert(peers[0].cancelled_gets >= usize::MAX || peers[1].cancelled_gets
                    >= usize::MAX || peers[2].cancelled_gets >= usize::MAX
                    || peers[3].cancelled_gets >= usize::MAX);
            }
        }
        yes
    }

    /// The peer on a side, as it stands.
    pub fn peer(&self, side: Side) -> (peer: Peer)
        ensures
            peer == self.spec_peer(side),
            peer@ == self@.peers[side.spec_index()],
            peer.spec_side() == side,
    {
        proof {
            use_type_invariant(self);
        }
        self.core.peers[side.index()]
    }

    /// The link on a side.
    pub fn link(&self, side: Side) -> (link: Link)
        ensures
            link == self.spec_peer(side).spec_link(),
            link.spec_side() == side,
    {
        proof {
            use_type_invariant(self);
        }
        self.core.peers[side.index()].link()
    }

    /// The descriptors to watch while the node waits for the pipes: the
    /// reading end of each peer's inbound pipe, by the number of the side.
    pub fn input_fds(&self) -> (fds: [i32; 4])
        ensures
            forall|side: Side| #[trigger]
                fds[side.spec_index()] == self.spec_peer(side).spec_link().spec_descriptor(
                    End::InputRead,
                ),
    {
        map_input_fds(&self.core.peers)
    }
}

} // verus!
