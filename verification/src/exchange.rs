//! What the handshake guarantees across one link.
//!
//! The two ends of a link run in different processes and meet only through the
//! lines they send each other. The theorems here follow such lines from one end
//! to the other.

use crate::model::{Next, NodeView, Register};
use crate::peer::{Emission, Handshake};
use crate::side::Side;
use crate::token::Token;
use vstd::prelude::*;

verus! {

/// The state after `k` rounds of asking for a value and withdrawing the
/// request.
pub open spec fn withdrawn(h: Handshake, k: nat) -> Handshake
    decreases k,
{
    if k == 0 {
        h
    } else {
        withdrawn(h, (k - 1) as nat).request().cancel()
    }
}

/// The state after the given values have arrived, one by one, while a request
/// is out, if each of them was dropped as the late answer to a withdrawn
/// request; nothing if one of them was delivered or rejected.
pub open spec fn drop_answers(h: Handshake, answers: Seq<i32>) -> Option<Handshake>
    decreases answers.len(),
{
    if answers.len() == 0 {
        Some(h)
    } else {
        match h.read_step(Token::Value(answers[0]).line()) {
            Some((next, None)) => drop_answers(next, answers.skip(1)),
            _ => None,
        }
    }
}

/// A value that is sent to a neighbour and read there arrives unchanged,
/// whatever value it is.
///
/// The reader asks with `GET`. The writer, which waited for that request,
/// sends the value. The reader finds exactly that value in the line, delivers
/// it and answers `ACK`, on which the write is done. Both nodes are then as
/// they were before, ready for the next transfer.
pub proof fn value_crosses_link(
    writer: NodeView,
    reader: NodeView,
    out: Side,
    inward: Side,
    value: i32,
)
    requires
        writer.wf(),
        writer.is_idle(),
        reader.wf(),
        reader.is_idle(),
        !writer.peers[out.spec_index()].got_get,
        reader.peers[inward.spec_index()].cancelled_gets == 0,
    ensures
        ({
            let asked = reader.read(Register::Side(inward));
            let waiting = writer.write(value, Register::Side(out));
            let offered = waiting.node.on_line(Token::Get.line());
            let taken = asked.node.on_line(Token::Value(value).line());
            let settled = offered.unwrap().node.on_line(Token::Ack.line());
            &&& asked.emit == seq![Emission { side: inward, token: Token::Get }]
            &&& asked.next == Next::Receive(inward)
            &&& waiting.emit == Seq::<Emission>::empty()
            &&& waiting.next == Next::Receive(out)
            &&& offered is Some
            &&& offered.unwrap().emit == seq![Emission { side: out, token: Token::Value(value) }]
            &&& offered.unwrap().next == Next::Receive(out)
            &&& taken is Some
            &&& taken.unwrap().emit == seq![Emission { side: inward, token: Token::Ack }]
            &&& taken.unwrap().next == Next::Value(value)
            &&& settled is Some
            &&& settled.unwrap().emit == Seq::<Emission>::empty()
            &&& settled.unwrap().next == Next::Written
            &&& taken.unwrap().node.peers == reader.peers
            &&& taken.unwrap().node.is_idle()
            &&& settled.unwrap().node.peers == writer.peers
            &&& settled.unwrap().node.is_idle()
        }),
{
    Token::line_round_trip(Token::Get);
    Token::line_round_trip(Token::Ack);
    Token::line_round_trip(Token::Value(value));
}

/// Two ends that ask each other for a value at the same moment do not block
/// each other for good.
///
/// Each finds the other's `GET` where it waited for a value. That is no
/// violation on either end: each notes the request and has its own still out.
/// As soon as one end withdraws its request and sends a value, which it can do
/// at once because the other's request is noted, the other end takes the
/// withdrawal, then the value, and answers `ACK`, which ends the send.
pub proof fn contention_resolves(a: Handshake, b: Handshake, value: i32)
    requires
        !a.got_get,
        !b.got_get,
        b.cancelled_gets == 0,
    ensures
        ({
            let a_met = a.request().read_step(Token::Get.line());
            let b_met = b.request().read_step(Token::Get.line());
            let a_sends = a_met.unwrap().0.cancel().offer();
            let b_freed = b_met.unwrap().0.read_step(Token::Nak.line());
            let b_done = b_freed.unwrap().0.read_step(Token::Value(value).line());
            &&& a_met == Some((Handshake { sent_get: true, got_get: true, ..a }, None::<i32>))
            &&& b_met == Some((Handshake { sent_get: true, got_get: true, ..b }, None::<i32>))
            &&& a_sends.1
            &&& !a_sends.0.sent_get && !a_sends.0.got_get
            &&& b_freed == Some((Handshake { sent_get: true, got_get: false, ..b }, None::<i32>))
            &&& b_done == Some((Handshake { sent_get: false, got_get: false, ..b }, Some(value)))
            &&& Handshake::reply_step(Token::Ack.line()) == Some(true)
        }),
{
    Token::line_round_trip(Token::Get);
    Token::line_round_trip(Token::Nak);
    Token::line_round_trip(Token::Ack);
    Token::line_round_trip(Token::Value(value));
}

/// A request that is withdrawn after the neighbour has answered it costs
/// neither end anything.
///
/// The writer sends its value on the request and finds it declined by the
/// `NAK`, so it offers the value again on the next request. The reader then
/// finds the value twice in its pipe: it drops the first, which answers the
/// request it withdrew, and delivers the second. The value has arrived once,
/// and the reader is as it was before it first asked.
pub proof fn withdrawn_request_loses_nothing(reader: Handshake, writer: Handshake, value: i32)
    requires
        !reader.sent_get,
        reader.cancelled_gets == 0,
    ensures
        ({
            let answer = Token::Value(value).line();
            let gone = reader.request().cancel();
            let first = gone.request().read_step(answer);
            let second = first.unwrap().0.read_step(answer);
            &&& writer.request_step(Token::Get.line()) == Some((writer, true))
            &&& Handshake::reply_step(Token::Nak.line()) == Some(false)
            &&& gone == Handshake { cancelled_gets: 1, ..reader }
            &&& first == Some((reader.request(), None::<i32>))
            &&& second == Some((reader, Some(value)))
            &&& Handshake::reply_step(Token::Ack.line()) == Some(true)
        }),
{
    Token::line_round_trip(Token::Get);
    Token::line_round_trip(Token::Nak);
    Token::line_round_trip(Token::Ack);
    Token::line_round_trip(Token::Value(value));
}

/// The late answer to a withdrawn request is dropped wherever it arrives: it
/// is never delivered as a value, never taken for a request, and it lowers the
/// count of answers still owed by one.
pub proof fn late_answer_is_dropped(h: Handshake, answer: i32)
    requires
        h.cancelled_gets > 0,
    ensures
        h.read_step(Token::Value(answer).line()) == Some((h.absorb(), None::<i32>)),
        h.request_step(Token::Value(answer).line()) == Some((h.absorb(), false)),
        h.absorb().cancelled_gets == h.cancelled_gets - 1,
        h.absorb().sent_get == h.sent_get,
        h.absorb().got_get == h.got_get,
{
    Token::line_round_trip(Token::Value(answer));
}

/// Every round of asking and withdrawing raises the count of owed answers by
/// one and leaves no request out.
pub proof fn withdrawals_are_counted(h: Handshake, k: nat)
    requires
        k > 0,
    ensures
        withdrawn(h, k) == (Handshake {
            sent_get: false,
            cancelled_gets: h.cancelled_gets + k,
            ..h
        }),
    decreases k,
{
    if k > 1 {
        withdrawals_are_counted(h, (k - 1) as nat);
    } else {
        assert(withdrawn(h, 0) == h);
    }
}

/// Once the late answers to all withdrawn requests have arrived, the count of
/// owed answers is where it was before the requests were made, so zero if it
/// was zero. None of the late answers is delivered, the request that is out
/// stays out through all of them, and the value that comes next is delivered:
/// nothing is lost for good.
pub proof fn withdrawals_settle(h: Handshake, answers: Seq<i32>, value: i32)
    requires
        h.sent_get,
        h.cancelled_gets >= answers.len(),
    ensures
        drop_answers(h, answers) == Some(
            Handshake { cancelled_gets: (h.cancelled_gets - answers.len()) as nat, ..h },
        ),
        h.cancelled_gets == answers.len() ==> drop_answers(h, answers).unwrap().read_step(
            Token::Value(value).line(),
        ) == Some((Handshake { sent_get: false, cancelled_gets: 0, ..h }, Some(value))),
    decreases answers.len(),
{
    Token::line_round_trip(Token::Value(value));
    if answers.len() > 0 {
        late_answer_is_dropped(h, answers[0]);
        withdrawals_settle(h.absorb(), answers.skip(1), value);
    }
}

/// Asking `k` times and withdrawing each request, then asking once more and
/// receiving the `k` late answers, leaves the handshake as it was with one
/// request out: the count has gone up by `k` and come down again.
pub proof fn cancelled_requests_converge(h: Handshake, answers: Seq<i32>)
    requires
        answers.len() > 0,
    ensures
        drop_answers(withdrawn(h, answers.len()).request(), answers) == Some(h.request()),
{
    withdrawals_are_counted(h, answers.len());
    let asked = withdrawn(h, answers.len()).request();
    withdrawals_settle(asked, answers, 0);
}

} // verus!
