//! What holds of the codec and of sessions across several steps.
use crate::codec::decoded;
use crate::codec::frame_of;
use crate::codec::is_sentinel_bytes;
use crate::codec::DecodedView;
use crate::codec::FRAME_LEN;
use crate::session::handshake_frame;
use crate::session::next;
use crate::session::DirectiveView;
use crate::session::NoticeView;
use crate::session::ActionView;
use crate::session::EventView;
use crate::session::Phase;
use crate::session::Role;
use vstd::prelude::*;
use vstd::utf8::*;

verus! {

broadcast use {encode_utf8_valid_utf8, encode_utf8_decode_utf8};

/// `n` characters `'\0'`: the padding of a frame, read as text.
pub open spec fn nul_chars(n: nat) -> Seq<char> {
    Seq::new(n, |i: int| '\0')
}

/// `n` zero bytes.
pub open spec fn zero_bytes(n: nat) -> Seq<u8> {
    Seq::new(n, |i: int| 0u8)
}

proof fn lemma_encode_concat(a: Seq<char>, b: Seq<char>)
    ensures
        encode_utf8(a + b) == encode_utf8(a) + encode_utf8(b),
    decreases a.len(),
{
    if a.len() == 0 {
        assert(a + b =~= b);
        assert(encode_utf8(a) + encode_utf8(b) =~= encode_utf8(b));
    } else {
        assert((a + b).drop_first() =~= a.drop_first() + b);
        lemma_encode_concat(a.drop_first(), b);
        assert(encode_utf8(a + b) =~= encode_utf8(a) + encode_utf8(b));
    }
}

proof fn lemma_encode_nuls(n: nat)
    ensures
        encode_utf8(nul_chars(n)) == zero_bytes(n),
{
    let s = nul_chars(n);
    assert(is_ascii_chars(s));
    is_ascii_chars_encode_utf8(s);
    assert forall|i: int| 0 <= i < n implies encode_utf8(s)[i] == 0u8 by {
        assert(s[i] == '\0');
    }
    assert(encode_utf8(s) =~= zero_bytes(n));
}

/// The frame of a text that fits is the encoding of that text padded with
/// `'\0'` characters to the frame's length.
proof fn lemma_frame_of_text(s: Seq<char>)
    requires
        encode_utf8(s).len() <= FRAME_LEN,
    ensures
        frame_of(encode_utf8(s)) == encode_utf8(
            s + nul_chars((FRAME_LEN - encode_utf8(s).len()) as nat),
        ),
{
    let k = (FRAME_LEN - encode_utf8(s).len()) as nat;
    lemma_encode_concat(s, nul_chars(k));
    lemma_encode_nuls(k);
    assert(frame_of(encode_utf8(s)) =~= encode_utf8(s) + zero_bytes(k));
}

/// Every frame made from zero bytes, the sentinel among them, decodes as
/// the sentinel.
pub proof fn sentinel_round_trip(b: Seq<u8>)
    requires
        forall|i: int| 0 <= i < b.len() ==> b[i] == 0u8,
    ensures
        is_sentinel_bytes(frame_of(b)),
        decoded(frame_of(b)) == DecodedView::Sentinel,
{
}

/// A text whose encoding fits in a frame, and which is not made of `'\0'`
/// alone, decodes from its frame as itself padded with `'\0'` to the frame's
/// length.
pub proof fn text_round_trip(s: Seq<char>)
    requires
        encode_utf8(s).len() <= FRAME_LEN,
        exists|i: int| 0 <= i < s.len() && s[i] != '\0',
    ensures
        decoded(frame_of(encode_utf8(s))) == DecodedView::Payload(
            s + nul_chars((FRAME_LEN - encode_utf8(s).len()) as nat),
        ),
{
    let k = (FRAME_LEN - encode_utf8(s).len()) as nat;
    let x = s + nul_chars(k);
    let f = frame_of(encode_utf8(s));
    lemma_frame_of_text(s);
    assert(decode_utf8(f) == x);
    if is_sentinel_bytes(f) {
        let i = choose|i: int| 0 <= i < s.len() && s[i] != '\0';
        lemma_encode_nuls(FRAME_LEN as nat);
        assert(f =~= encode_utf8(nul_chars(FRAME_LEN as nat)));
        assert(x =~= nul_chars(FRAME_LEN as nat));
        assert(x[i] == s[i]);
    }
}

/// A session's rules applied to a run of events, one after another: the
/// phase at the end and every action, in order.
pub open spec fn run(role: Role, phase: Phase, events: Seq<EventView>) -> (Phase, Seq<ActionView>)
    decreases events.len(),
{
    if events.len() == 0 {
        (phase, Seq::empty())
    } else {
        let first = next(role, phase, events[0]);
        let rest = run(role, first.0, events.drop_first());
        (rest.0, first.1 + rest.1)
    }
}

/// How many acknowledgements the actions send.
pub open spec fn acks_in(s: Seq<ActionView>) -> nat
    decreases s.len(),
{
    if s.len() == 0 {
        0
    } else {
        (if s[0] is SendAck { 1nat } else { 0nat }) + acks_in(s.drop_first())
    }
}

/// How many round-trip events the actions publish.
pub open spec fn round_trips_in(s: Seq<ActionView>) -> nat
    decreases s.len(),
{
    if s.len() == 0 {
        0
    } else {
        (if s[0] is Publish && s[0]->Publish_0 is RoundTrip { 1nat } else { 0nat })
            + round_trips_in(s.drop_first())
    }
}

/// Whether the event delivers a frame other than the sentinel.
pub open spec fn delivers_frame(e: EventView) -> bool {
    e is FrameRead && !is_sentinel_bytes(frame_of(e->FrameRead_0))
}

/// Whether the event is an acknowledgement that arrived.
pub open spec fn ack_arrives(e: EventView) -> bool {
    e is AckRead && e->AckRead_0 > 0
}

/// A terminated session does nothing more, whatever comes.
pub proof fn terminated_is_final(role: Role, events: Seq<EventView>)
    ensures
        run(role, Phase::Terminated, events) == (Phase::Terminated, Seq::<ActionView>::empty()),
    decreases events.len(),
{
    if events.len() > 0 {
        terminated_is_final(role, events.drop_first());
        assert(Seq::<ActionView>::empty() + Seq::<ActionView>::empty() =~= Seq::<ActionView>::empty());
    }
}

/// Each frame delivered while a session waits for one is acknowledged
/// exactly once, and each acknowledgement of a frame of ours yields exactly
/// one round-trip event; no other step sends an acknowledgement or publishes
/// a round trip.
pub proof fn one_ack_per_frame_one_round_trip_per_send(role: Role, phase: Phase, e: EventView)
    ensures
        acks_in(next(role, phase, e).1) == (if phase == Phase::ReceivingFrame && delivers_frame(e) {
            1nat
        } else {
            0nat
        }),
        round_trips_in(next(role, phase, e).1) == (if phase == Phase::AwaitingAck && ack_arrives(e) {
            1nat
        } else {
            0nat
        }),
{
    reveal_with_fuel(acks_in, 3);
    reveal_with_fuel(round_trips_in, 3);
    let a = next(role, phase, e).1;
    if a.len() > 0 {
        assert(a.drop_first().len() > 0 ==> a.drop_first().drop_first() =~= Seq::<ActionView>::empty());
    }
    if a.len() == 2 {
        assert(a.drop_first() =~= seq![a[1]]);
    }
}

/// A text of at most a frame's length that the connector is told to send
/// goes out as one frame, and a listener waiting for a frame publishes it as
/// that text padded with `'\0'` to the frame's length. A text of `'\0'`
/// alone, the empty text among them, would be the sentinel on the wire and
/// is refused instead (see `directives_never_send_the_sentinel`).
pub proof fn sent_text_arrives_padded(t: Seq<char>)
    requires
        encode_utf8(t).len() <= FRAME_LEN,
        exists|i: int| 0 <= i < t.len() && t[i] != '\0',
    ensures
        ({
            let f = frame_of(encode_utf8(t));
            &&& next(
                Role::Connector,
                Phase::AwaitingDirective,
                EventView::Directive(DirectiveView::OutgoingMessage(t)),
            ) == (Phase::AwaitingAck, seq![ActionView::SendFrameAwaitAck(f)])
            &&& next(Role::Listener, Phase::ReceivingFrame, EventView::FrameRead(f)) == (
                Phase::AwaitingDirective,
                seq![
                    ActionView::SendAck,
                    ActionView::Publish(
                        NoticeView::IncomingMessage(
                            t + nul_chars((FRAME_LEN - encode_utf8(t).len()) as nat),
                        ),
                    ),
                ],
            )
        }),
{
    let f = frame_of(encode_utf8(t));
    text_round_trip(t);
    assert(frame_of(f) =~= f);
}

/// When the listener quits while waiting for a directive (so after a frame
/// came in), it closes the connection and publishes one shutdown event, and
/// nothing after; the connector, waiting for a frame, reads the closed
/// connection as empty or failed, publishes one disconnect event and ends,
/// and no frame goes either way after that.
pub proof fn listener_quit_ends_both(later: Seq<EventView>)
    ensures
        next(Role::Listener, Phase::AwaitingDirective, EventView::Directive(DirectiveView::Quit))
            == (
            Phase::Terminated,
            seq![ActionView::Close, ActionView::Publish(NoticeView::LocalShutdown)],
        ),
        next(Role::Connector, Phase::ReceivingFrame, EventView::FrameRead(Seq::empty())) == (
            Phase::Terminated,
            seq![ActionView::Close, ActionView::Publish(NoticeView::PeerDisconnected)],
        ),
        next(Role::Connector, Phase::ReceivingFrame, EventView::ReadFailed) == (
            Phase::Terminated,
            seq![ActionView::Close, ActionView::Publish(NoticeView::PeerDisconnected)],
        ),
        run(Role::Listener, Phase::Terminated, later).1.len() == 0,
        run(Role::Connector, Phase::Terminated, later).1.len() == 0,
{
    sentinel_round_trip(Seq::empty());
    terminated_is_final(Role::Listener, later);
    terminated_is_final(Role::Connector, later);
}

/// When the connector quits while waiting for a directive, it closes the
/// connection, publishes one disconnect event and does nothing after; the
/// listener, waiting for a frame, reads the closed connection as empty or
/// failed, closes it without any event and accepts again, greeting its next
/// peer as it did the first.
pub proof fn connector_quit_listener_accepts_again(later: Seq<EventView>)
    ensures
        next(Role::Connector, Phase::AwaitingDirective, EventView::Directive(DirectiveView::Quit))
            == (
            Phase::Terminated,
            seq![ActionView::Close, ActionView::Publish(NoticeView::PeerDisconnected)],
        ),
        run(Role::Connector, Phase::Terminated, later).1.len() == 0,
        next(Role::Listener, Phase::ReceivingFrame, EventView::FrameRead(Seq::empty())) == (
            Phase::Connecting,
            seq![ActionView::Close],
        ),
        next(Role::Listener, Phase::ReceivingFrame, EventView::ReadFailed) == (
            Phase::Connecting,
            seq![ActionView::Close],
        ),
        next(Role::Listener, Phase::Connecting, EventView::Connected) == (
            Phase::AwaitingHandshakeAck,
            seq![ActionView::SendFrameAwaitAck(handshake_frame())],
        ),
{
    sentinel_round_trip(Seq::empty());
    terminated_is_final(Role::Connector, later);
}

/// No directive makes a session send the all-zero frame: a text whose frame
/// would be all zero is refused, with nothing sent and the session still
/// waiting for a directive.
pub proof fn directives_never_send_the_sentinel(role: Role, t: Seq<char>)
    ensures
        ({
            let r = next(
                role,
                Phase::AwaitingDirective,
                EventView::Directive(DirectiveView::OutgoingMessage(t)),
            );
            &&& forall|i: int|
                0 <= i < r.1.len() && (#[trigger] r.1[i]) is SendFrameAwaitAck
                    ==> !is_sentinel_bytes(r.1[i]->SendFrameAwaitAck_0)
            &&& is_sentinel_bytes(frame_of(encode_utf8(t))) ==> r == (
                Phase::AwaitingDirective,
                Seq::<ActionView>::empty(),
            )
        }),
{
}

} // verus!
