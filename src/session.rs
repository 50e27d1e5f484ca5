//! The per-connection session: a state machine from the current phase and
//! the outcome of the last piece of outside work (an accept, a read, a
//! directive from the application) to the next phase and the actions that
//! the driver performs, in order.
use crate::codec::decode;
use crate::codec::encode;
use crate::codec::frame_of;
use crate::codec::frame_text;
use crate::codec::handshake;
use crate::codec::is_sentinel_bytes;
use crate::codec::DecodedFrame;
use crate::codec::Frame;
use crate::codec::HANDSHAKE;
use std::time::Duration;
use vstd::prelude::*;
use vstd::utf8::encode_utf8;

verus! {

/// Which end of the connection a session is.
#[derive(Debug, Clone, Copy, PartialEq, Eq, Structural)]
pub enum Role {
    /// Accepts connections one at a time and goes back to accepting when
    /// its peer leaves.
    Listener,
    /// Dials once and ends when its peer leaves.
    Connector,
}

/// Where a session stands; `Terminated` is final.
#[derive(Debug, Clone, Copy, PartialEq, Eq, Structural)]
pub enum Phase {
    /// Waiting for a connection: an accept, or the one connect.
    Connecting,
    /// The listener sent its greeting and waits for the acknowledgement.
    AwaitingHandshakeAck,
    /// Waiting for the peer's next frame.
    ReceivingFrame,
    /// Waiting for the application's next directive.
    AwaitingDirective,
    /// A frame went out; waiting for its acknowledgement.
    AwaitingAck,
    /// The session is over.
    Terminated,
}

/// A directive from the application to the session.
#[derive(Debug, PartialEq, Eq)]
pub enum ComponentControlMsg {
    /// Send this text to the peer.
    OutgoingMessage(String),
    /// End the session.
    Quit,
}

/// A directive as a value of the model.
pub enum DirectiveView {
    OutgoingMessage(Seq<char>),
    Quit,
}

impl View for ComponentControlMsg {
    type V = DirectiveView;

    open spec fn view(&self) -> DirectiveView {
        match self {
            ComponentControlMsg::OutgoingMessage(t) => DirectiveView::OutgoingMessage(t@),
            ComponentControlMsg::Quit => DirectiveView::Quit,
        }
    }
}

/// An event that the session publishes to the application.
#[derive(Debug, PartialEq, Eq)]
pub enum MainControlMsg {
    /// A frame of ours was acknowledged this long after it went out.
    RoundTrip(Duration),
    /// The peer sent this text (padding zeros included).
    IncomingMessage(String),
    /// The session ended, as the connector: the peer left or we quit.
    PeerDisconnected,
    /// The listener was told to quit and stopped accepting.
    LocalShutdown,
}

/// A published event as a value of the model.
pub enum NoticeView {
    RoundTrip(Duration),
    IncomingMessage(Seq<char>),
    PeerDisconnected,
    LocalShutdown,
}

impl View for MainControlMsg {
    type V = NoticeView;

    open spec fn view(&self) -> NoticeView {
        match self {
            MainControlMsg::RoundTrip(d) => NoticeView::RoundTrip(*d),
            MainControlMsg::IncomingMessage(t) => NoticeView::IncomingMessage(t@),
            MainControlMsg::PeerDisconnected => NoticeView::PeerDisconnected,
            MainControlMsg::LocalShutdown => NoticeView::LocalShutdown,
        }
    }
}

/// What the last piece of outside work came to.
#[derive(Debug, PartialEq, Eq)]
pub enum Event {
    /// A connection was accepted, or the connect succeeded.
    Connected,
    /// The accept, or the connect, failed.
    ConnectFailed,
    /// A frame read delivered these bytes (none when the peer closed).
    FrameRead(Vec<u8>),
    /// The read of an acknowledgement delivered this many bytes, this long
    /// after the frame it answers began to go out.
    AckRead(usize, Duration),
    /// A read failed.
    ReadFailed,
    /// The application sent a directive.
    Directive(ComponentControlMsg),
    /// The application's directive channel is closed.
    DirectivesClosed,
}

/// An event as a value of the model.
pub enum EventView {
    Connected,
    ConnectFailed,
    FrameRead(Seq<u8>),
    AckRead(nat, Duration),
    ReadFailed,
    Directive(DirectiveView),
    DirectivesClosed,
}

impl View for Event {
    type V = EventView;

    open spec fn view(&self) -> EventView {
        match self {
            Event::Connected => EventView::Connected,
            Event::ConnectFailed => EventView::ConnectFailed,
            Event::FrameRead(b) => EventView::FrameRead(b@),
            Event::AckRead(n, d) => EventView::AckRead(*n as nat, *d),
            Event::ReadFailed => EventView::ReadFailed,
            Event::Directive(m) => EventView::Directive(m@),
            Event::DirectivesClosed => EventView::DirectivesClosed,
        }
    }
}

/// Something the driver of a session does, in the order given.
#[derive(Debug, PartialEq, Eq)]
pub enum Action {
    /// Write this frame, then read the peer's acknowledgement, timing both;
    /// report the outcome as `AckRead` or `ReadFailed`.
    SendFrameAwaitAck(Frame),
    /// Write the acknowledgement token.
    SendAck,
    /// Hand this event to the application.
    Publish(MainControlMsg),
    /// Drop the connection.
    Close,
    /// The connector could not reach its peer: stop the process.
    Abort,
}

/// An action as a value of the model.
pub enum ActionView {
    SendFrameAwaitAck(Seq<u8>),
    SendAck,
    Publish(NoticeView),
    Close,
    Abort,
}

impl View for Action {
    type V = ActionView;

    open spec fn view(&self) -> ActionView {
        match self {
            Action::SendFrameAwaitAck(f) => ActionView::SendFrameAwaitAck(f@),
            Action::SendAck => ActionView::SendAck,
            Action::Publish(m) => ActionView::Publish(m@),
            Action::Close => ActionView::Close,
            Action::Abort => ActionView::Abort,
        }
    }
}

/// The model of a list of actions.
pub open spec fn actions_view(v: Seq<Action>) -> Seq<ActionView> {
    v.map_values(|a: Action| a@)
}

/// The phase after the peer is lost (sentinel, empty or failed read): the
/// listener accepts again, the connector ends.
pub open spec fn lost_phase(role: Role) -> Phase {
    match role {
        Role::Listener => Phase::Connecting,
        Role::Connector => Phase::Terminated,
    }
}

/// What losing the peer does: close, and on the connector tell the
/// application that the session ended.
pub open spec fn lost_actions(role: Role) -> Seq<ActionView> {
    match role {
        Role::Listener => seq![ActionView::Close],
        Role::Connector => seq![ActionView::Close, ActionView::Publish(NoticeView::PeerDisconnected)],
    }
}

/// What a local quit does: the session ends, with a shutdown notice on the
/// listener and a disconnect notice on the connector.
pub open spec fn quit_actions(role: Role) -> Seq<ActionView> {
    match role {
        Role::Listener => seq![ActionView::Close, ActionView::Publish(NoticeView::LocalShutdown)],
        Role::Connector => seq![ActionView::Close, ActionView::Publish(NoticeView::PeerDisconnected)],
    }
}

/// The frame that the listener greets each new peer with.
pub open spec fn handshake_frame() -> Seq<u8> {
    frame_of(encode_utf8(HANDSHAKE@))
}

/// The session's rules: from a role, a phase and an event, the next phase
/// and the actions to perform. An event that the phase does not wait for
/// changes nothing. The all-zero frame is reserved for disconnects: a text
/// whose frame would be all zero (the empty text, or one of `'\0'` alone)
/// is refused, and the session keeps waiting for a directive.
pub open spec fn next(role: Role, phase: Phase, e: EventView) -> (Phase, Seq<ActionView>) {
    let unchanged = (phase, Seq::<ActionView>::empty());
    let lost = (lost_phase(role), lost_actions(role));
    match phase {
        Phase::Connecting => match e {
            EventView::Connected => match role {
                Role::Listener => (
                    Phase::AwaitingHandshakeAck,
                    seq![ActionView::SendFrameAwaitAck(handshake_frame())],
                ),
                Role::Connector => (Phase::ReceivingFrame, Seq::empty()),
            },
            EventView::ConnectFailed => match role {
                Role::Listener => unchanged,
                Role::Connector => (Phase::Terminated, seq![ActionView::Abort]),
            },
            _ => unchanged,
        },
        Phase::AwaitingHandshakeAck => match e {
            EventView::AckRead(n, _) => if n == 0 {
                lost
            } else {
                (Phase::ReceivingFrame, Seq::empty())
            },
            EventView::ReadFailed => lost,
            _ => unchanged,
        },
        Phase::ReceivingFrame => match e {
            EventView::FrameRead(b) => if is_sentinel_bytes(frame_of(b)) {
                lost
            } else {
                (
                    Phase::AwaitingDirective,
                    seq![
                        ActionView::SendAck,
                        ActionView::Publish(NoticeView::IncomingMessage(frame_text(frame_of(b)))),
                    ],
                )
            },
            EventView::ReadFailed => lost,
            _ => unchanged,
        },
        Phase::AwaitingDirective => match e {
            EventView::Directive(DirectiveView::OutgoingMessage(t)) => if is_sentinel_bytes(
                frame_of(encode_utf8(t)),
            ) {
                unchanged
            } else {
                (Phase::AwaitingAck, seq![ActionView::SendFrameAwaitAck(frame_of(encode_utf8(t)))])
            },
            EventView::Directive(DirectiveView::Quit) => (Phase::Terminated, quit_actions(role)),
            EventView::DirectivesClosed => (Phase::Terminated, quit_actions(role)),
            _ => unchanged,
        },
        Phase::AwaitingAck => match e {
            EventView::AckRead(n, d) => if n == 0 {
                lost
            } else {
                (Phase::ReceivingFrame, seq![ActionView::Publish(NoticeView::RoundTrip(d))])
            },
            EventView::ReadFailed => lost,
            _ => unchanged,
        },
        Phase::Terminated => unchanged,
    }
}

/// One session: its role and its phase.
pub struct Session {
    role: Role,
    phase: Phase,
}

impl View for Session {
    type V = (Role, Phase);

    closed spec fn view(&self) -> (Role, Phase) {
        (self.role, self.phase)
    }
}

/// The phase and actions after the peer is lost.
fn lost(role: Role) -> (r: (Phase, Vec<Action>))
    ensures
        r.0 == lost_phase(role),
        actions_view(r.1@) == lost_actions(role),
{
    let mut v: Vec<Action> = Vec::new();
    v.push(Action::Close);
    let p = match role {
        Role::Listener => Phase::Connecting,
        Role::Connector => {
            v.push(Action::Publish(MainControlMsg::PeerDisconnected));
            Phase::Terminated
        },
    };
    assert(actions_view(v@) =~= lost_actions(role));
    (p, v)
}

/// The actions of a local quit.
fn quit(role: Role) -> (r: Vec<Action>)
    ensures
        actions_view(r@) == quit_actions(role),
{
    let mut v: Vec<Action> = Vec::new();
    v.push(Action::Close);
    match role {
        Role::Listener => v.push(Action::Publish(MainControlMsg::LocalShutdown)),
        Role::Connector => v.push(Action::Publish(MainControlMsg::PeerDisconnected)),
    }
    assert(actions_view(v@) =~= quit_actions(role));
    v
}

/// A list of the one action `a`.
fn one(a: Action) -> (r: Vec<Action>)
    ensures
        actions_view(r@) == seq![a@],
{
    let mut v: Vec<Action> = Vec::new();
    v.push(a);
    assert(actions_view(v@) =~= seq![a@]);
    v
}

/// Whether `text` can go out as a message: its frame is not the all-zero
/// frame, which stands for a disconnect. The empty text, and text of `'\0'`
/// alone, cannot.
pub fn is_sendable(text: &str) -> (r: bool)
    ensures
        r == !is_sentinel_bytes(frame_of(encode_utf8(text@))),
{
    !encode(text).is_sentinel()
}

impl Session {
    /// A new session in the given role, waiting for its connection.
    pub fn new(role: Role) -> (r: Session)
        ensures
            r@ == (role, Phase::Connecting),
    {
        Session { role, phase: Phase::Connecting }
    }

    /// The session's role.
    pub fn role(&self) -> (r: Role)
        ensures
            r == self@.0,
    {
        self.role
    }

    /// The session's phase.
    pub fn phase(&self) -> (r: Phase)
        ensures
            r == self@.1,
    {
        self.phase
    }

    /// Whether the session is over.
    pub fn is_terminated(&self) -> (r: bool)
        ensures
            r == (self@.1 == Phase::Terminated),
    {
        self.phase == Phase::Terminated
    }

    /// Takes one event: moves to the next phase and returns the actions to
    /// perform, as `next` gives them. A directive to send a text that
    /// `is_sendable` refuses is dropped: nothing is sent and the session
    /// keeps waiting for a directive.
    pub fn step(&mut self, event: Event) -> (actions: Vec<Action>)
        ensures
            final(self)@.0 == old(self)@.0,
            final(self)@.1 == next(old(self)@.0, old(self)@.1, event@).0,
            actions_view(actions@) == next(old(self)@.0, old(self)@.1, event@).1,
    {
        let role = self.role;
        let (p, v): (Phase, Vec<Action>) = match self.phase {
            Phase::Connecting => match event {
                Event::Connected => match role {
                    Role::Listener => (
                        Phase::AwaitingHandshakeAck,
                        one(Action::SendFrameAwaitAck(handshake())),
                    ),
                    Role::Connector => (Phase::ReceivingFrame, Vec::new()),
                },
                Event::ConnectFailed => match role {
                    Role::Listener => (Phase::Connecting, Vec::new()),
                    Role::Connector => (Phase::Terminated, one(Action::Abort)),
                },
                _ => (Phase::Connecting, Vec::new()),
            },
            Phase::AwaitingHandshakeAck => match event {
                Event::AckRead(n, _) => if n == 0 {
                    lost(role)
                } else {
                    (Phase::ReceivingFrame, Vec::new())
                },
                Event::ReadFailed => lost(role),
                _ => (Phase::AwaitingHandshakeAck, Vec::new()),
            },
            Phase::ReceivingFrame => match event {
                Event::FrameRead(b) => {
                    let frame = Frame::pad(b.as_slice());
                    match decode(&frame) {
                        DecodedFrame::Sentinel => lost(role),
                        DecodedFrame::Payload(text) => {
                            let mut v: Vec<Action> = Vec::new();
                            v.push(Action::SendAck);
                            v.push(Action::Publish(MainControlMsg::IncomingMessage(text)));
                            assert(actions_view(v@) =~= next(role, Phase::ReceivingFrame, event@).1);
                            (Phase::AwaitingDirective, v)
                        },
                    }
                },
                Event::ReadFailed => lost(role),
                _ => (Phase::ReceivingFrame, Vec::new()),
            },
            Phase::AwaitingDirective => match event {
                Event::Directive(ComponentControlMsg::OutgoingMessage(t)) => {
                    let frame = encode(t.as_str());
                    if frame.is_sentinel() {
                        (Phase::AwaitingDirective, Vec::new())
                    } else {
                        (Phase::AwaitingAck, one(Action::SendFrameAwaitAck(frame)))
                    }
                },
                Event::Directive(ComponentControlMsg::Quit) => (Phase::Terminated, quit(role)),
                Event::DirectivesClosed => (Phase::Terminated, quit(role)),
                _ => (Phase::AwaitingDirective, Vec::new()),
            },
            Phase::AwaitingAck => match event {
                Event::AckRead(n, d) => if n == 0 {
                    lost(role)
                } else {
                    (Phase::ReceivingFrame, one(Action::Publish(MainControlMsg::RoundTrip(d))))
                },
                Event::ReadFailed => lost(role),
                _ => (Phase::AwaitingAck, Vec::new()),
            },
            Phase::Terminated => (Phase::Terminated, Vec::new()),
        };
        proof {
            if v@.len() == 0 {
                assert(actions_view(v@) =~= Seq::<ActionView>::empty());
            }
        }
        self.phase = p;
        v
    }
}

} // verus!
