//! What the wildcard register guarantees.
//!
//! A wildcard read asks every neighbour and takes one value; a wildcard write
//! offers one value to whichever neighbour takes it. The theorems here say
//! that exactly one neighbour is served, that the others are left in a state
//! from which nothing is lost, and that `Last` follows the neighbour that was
//! served.

use crate::model::{retractions, Next, NodeView, Outcome, Pending, Register, Scan};
use crate::peer::{Emission, Handshake};
use crate::side::Side;
use crate::token::Token;
use vstd::prelude::*;

verus! {

/// The withdrawals to every side but one, in the order of the sides.
pub open spec fn naks_to_others(served: Side) -> Seq<Emission> {
    Seq::new(
        3,
        |k: int|
            Emission {
                side: Side::spec_from_index(
                    if k < served.spec_index() {
                        k
                    } else {
                        k + 1
                    },
                ),
                token: Token::Nak,
            },
    )
}

/// The value that an operation under way has still to send, if it is a write.
pub open spec fn value_in_hand(pending: Pending) -> Option<i32> {
    match pending {
        Pending::Sending { value, .. } => Some(value),
        Pending::WaitingToSend { value } => Some(value),
        _ => None,
    }
}

/// Whether the operation under way is a wildcard transfer on `side`.
pub open spec fn wildcard_on(pending: Pending, side: Side) -> bool {
    match pending {
        Pending::Sending { side: s, scan, .. } => s == side && !(scan is Direct),
        Pending::Reading { side: s, polled } => s == side && polled is Some,
        _ => false,
    }
}

/// Whether a step asks the caller for exactly what the node then waits for:
/// a line from the side it waits on, the findings of a wait, or nothing more
/// because the operation has ended.
pub open spec fn in_step(outcome: Outcome) -> bool {
    match outcome.next {
        Next::Receive(side) => outcome.node.awaits_line() && outcome.node.expects().0 == side,
        Next::Wait => outcome.node.awaits_ready(),
        Next::Written => outcome.node.is_idle(),
        Next::Value(_) => outcome.node.is_idle(),
    }
}

/// When several neighbours answer one wildcard read, exactly one value is
/// delivered.
///
/// The line that ends the read holds exactly the value that is delivered, and
/// it is handed to the caller: no register takes it. One `ACK` goes out, to the
/// neighbour whose value it was, and that side becomes `Last`. Every other
/// neighbour gets a `NAK` and no `ACK`: its request is withdrawn, and the
/// answer it may already have sent is counted, so that it will be dropped and
/// not taken for the answer to a later request.
pub proof fn wildcard_read_delivers_once(node: NodeView, line: Seq<u8>)
    requires
        node.wf(),
        node.pending matches Pending::Reading { polled: Some(_), .. },
        node.on_line(line) matches Some(outcome) && outcome.next is Value,
    ensures
        ({
            let served = node.expects().0;
            let outcome = node.on_line(line).unwrap();
            &&& Token::parse(line) == Some(Token::Value(outcome.next->Value_0))
            &&& outcome.node.is_idle()
            &&& outcome.node.last == Some(served)
            &&& outcome.node.acc == node.acc
            &&& outcome.node.bak == node.bak
            &&& outcome.emit == seq![Emission { side: served, token: Token::Ack }] + naks_to_others(
                served,
            )
            &&& forall|i: int|
                0 <= i < 4 ==> #[trigger] outcome.node.peers[i] == (Handshake {
                    sent_get: false,
                    cancelled_gets: if i == served.spec_index() {
                        node.peers[i].cancelled_gets
                    } else {
                        node.peers[i].cancelled_gets + 1
                    },
                    ..node.peers[i]
                })
        }),
{
    reveal_with_fuel(retractions, 5);
}

/// A wildcard write ends on exactly one side: the one whose neighbour has
/// answered the value with `ACK`. That side becomes `Last`; nothing more goes
/// out, no handshake moves, and the registers keep their values.
pub proof fn wildcard_write_serves_one(node: NodeView, line: Seq<u8>)
    requires
        node.wf(),
        node.pending matches Pending::Sending { scan, .. } && !(scan is Direct),
        node.on_line(line) matches Some(outcome) && outcome.next == Next::Written,
    ensures
        ({
            let outcome = node.on_line(line).unwrap();
            &&& node.pending matches Pending::Sending { offered: true, .. }
            &&& Token::parse(line) == Some(Token::Ack)
            &&& outcome.node == NodeView {
                last: Some(node.expects().0),
                pending: Pending::Idle,
                ..node
            }
            &&& outcome.emit == Seq::<Emission>::empty()
        }),
{
}

/// A reply that declines a value leaves the value with the writer, which goes
/// on to offer it again: the `NAK` that a wildcard read sends to the
/// neighbours it did not serve loses nothing. The write is not reported as
/// done, and no register of the writer has changed.
pub proof fn declined_value_is_kept(node: NodeView, line: Seq<u8>)
    requires
        node.wf(),
        node.pending matches Pending::Sending { offered: true, .. },
        Token::parse(line) == Some(Token::Nak),
    ensures
        ({
            let outcome = node.on_line(line);
            &&& outcome is Some
            &&& value_in_hand(outcome.unwrap().node.pending) == value_in_hand(node.pending)
            &&& outcome.unwrap().next != Next::Written
            &&& outcome.unwrap().node.last == node.last
            &&& outcome.unwrap().node.acc == node.acc
            &&& outcome.unwrap().node.bak == node.bak
            &&& node.pending matches Pending::Sending { side, scan: Scan::Direct, .. }
                ==> outcome.unwrap().next == Next::Receive(side)
        }),
{
}

/// `Last` stands for the side of the last wildcard transfer: a read or write
/// through it is the read or write through that side, and before the first
/// such transfer it is a read or write of `Nil`.
pub proof fn last_routes_like_its_side(node: NodeView, value: i32)
    ensures
        node.last matches Some(side) ==> {
            &&& node.read(Register::Last) == node.read(Register::Side(side))
            &&& node.write(value, Register::Last) == node.write(value, Register::Side(side))
        },
        node.last is None ==> {
            &&& node.read(Register::Last) == node.read(Register::Nil)
            &&& node.write(value, Register::Last) == node.write(value, Register::Nil)
            &&& node.read(Register::Last) == node.done(Next::Value(0))
            &&& node.write(value, Register::Last) == node.done(Next::Written)
        },
{
}

/// `Last` changes only when a wildcard transfer ends, and then it names the
/// side on which the transfer ended. Beginning an operation, the findings of a
/// wait, and every line that does not end a wildcard transfer leave it alone;
/// so it keeps naming one side until a wildcard transfer ends on another.
pub proof fn last_follows_wildcard(
    node: NodeView,
    value: i32,
    target: Register,
    ready: [bool; 4],
    line: Seq<u8>,
)
    requires
        node.wf(),
    ensures
        node.write(value, target).node.last == node.last,
        node.read(target).node.last == node.last,
        node.on_ready(ready).node.last == node.last,
        node.on_line(line) matches Some(outcome) ==> {
            let side = node.expects().0;
            let ended = wildcard_on(node.pending, side) && outcome.node.is_idle();
            &&& ended ==> outcome.node.last == Some(side)
            &&& !ended ==> outcome.node.last == node.last
        },
{
}

/// Every step asks the caller for what the node then waits for. A caller that
/// does what each step says therefore always holds a node that accepts the
/// next event, until a step ends the operation and leaves the node idle.
pub proof fn steps_are_in_step(
    node: NodeView,
    value: i32,
    target: Register,
    ready: [bool; 4],
    line: Seq<u8>,
)
    requires
        node.wf(),
    ensures
        node.is_idle() ==> in_step(node.write(value, target)),
        node.is_idle() ==> in_step(node.read(target)),
        node.awaits_ready() ==> in_step(node.on_ready(ready)),
        node.on_line(line) matches Some(outcome) ==> in_step(outcome),
{
}

} // verus!
