//! Fixed 24-byte chat frames, the all-zero disconnect sentinel and the
//! three-byte acknowledgement token.
use vstd::prelude::*;
use vstd::utf8::*;
use vstd::string::*;

verus! {

/// Number of bytes in every chat frame on the wire.
pub const FRAME_LEN: usize = 24;

/// Number of bytes in the acknowledgement token.
pub const ACK_LEN: usize = 3;

/// Greeting that the listener sends on every accepted connection.
pub const HANDSHAKE: &'static str = "Lets chat!!";

/// The frame holding `bytes`: at most `FRAME_LEN` of them, the rest zero.
pub open spec fn frame_of(bytes: Seq<u8>) -> Seq<u8> {
    Seq::new(FRAME_LEN as nat, |i: int| if i < bytes.len() { bytes[i] } else { 0u8 })
}

/// A frame whose bytes are all zero: the peer is closing the session.
pub open spec fn is_sentinel_bytes(f: Seq<u8>) -> bool {
    forall|i: int| 0 <= i < f.len() ==> f[i] == 0u8
}

/// The acknowledgement token, "ACK".
pub open spec fn ack_bytes() -> Seq<u8> {
    seq![65u8, 67u8, 75u8]
}

/// What `String::from_utf8_lossy` makes of bytes that are not valid UTF-8.
pub uninterp spec fn lossy_text(b: Seq<u8>) -> Seq<char>;

/// The text that a frame's bytes decode to: the characters they encode when
/// they are valid UTF-8, else the lossy reading with replacement characters.
/// Padding zeros stay in the text as `'\0'` characters.
pub open spec fn frame_text(b: Seq<u8>) -> Seq<char> {
    if valid_utf8(b) {
        decode_utf8(b)
    } else {
        lossy_text(b)
    }
}

/// A frame as it decodes.
pub enum DecodedView {
    Sentinel,
    Payload(Seq<char>),
}

/// How the frame with bytes `f` decodes.
pub open spec fn decoded(f: Seq<u8>) -> DecodedView {
    if is_sentinel_bytes(f) {
        DecodedView::Sentinel
    } else {
        DecodedView::Payload(frame_text(f))
    }
}

/// One chat frame: always exactly `FRAME_LEN` bytes.
#[derive(Debug, Clone, PartialEq, Eq)]
pub struct Frame {
    bytes: Vec<u8>,
}

impl View for Frame {
    type V = Seq<u8>;

    closed spec fn view(&self) -> Seq<u8> {
        self.bytes@
    }
}

impl Frame {
    /// A frame has exactly `FRAME_LEN` bytes.
    pub open spec fn wf(&self) -> bool {
        self@.len() == FRAME_LEN
    }

    /// The frame that carries `bytes`: the first `FRAME_LEN` of them, padded
    /// with zeros. Longer input is cut silently; a read that delivered fewer
    /// bytes than a frame gives the same frame as the zero-filled buffer.
    pub fn pad(bytes: &[u8]) -> (r: Frame)
        ensures
            r@ == frame_of(bytes@),
            r.wf(),
    {
        let mut v: Vec<u8> = Vec::with_capacity(FRAME_LEN);
        let mut i: usize = 0;
        while i < FRAME_LEN
            invariant
                i <= FRAME_LEN,
                v@.len() == i,
                forall|j: int| 0 <= j < i ==> v@[j] == frame_of(bytes@)[j],
            decreases FRAME_LEN - i,
        {
            if i < bytes.len() {
                v.push(bytes[i]);
            } else {
                v.push(0u8);
            }
            i = i + 1;
        }
        assert(v@ =~= frame_of(bytes@));
        Frame { bytes: v }
    }

    /// The all-zero frame that announces a disconnect.
    pub fn sentinel() -> (r: Frame)
        ensures
            r.wf(),
            is_sentinel_bytes(r@),
    {
        let empty: [u8; 0] = [];
        Frame::pad(&empty)
    }

    /// The frame's bytes, as written to the wire.
    pub fn as_bytes(&self) -> (r: &[u8])
        ensures
            r@ == self@,
    {
        self.bytes.as_slice()
    }

    /// Whether every byte of the frame is zero.
    pub fn is_sentinel(&self) -> (r: bool)
        ensures
            r == is_sentinel_bytes(self@),
    {
        let mut i: usize = 0;
        while i < self.bytes.len()
            invariant
                i <= self@.len(),
                forall|j: int| 0 <= j < i ==> self@[j] == 0u8,
            decreases self@.len() - i,
        {
            if self.bytes[i] != 0u8 {
                return false;
            }
            i = i + 1;
        }
        true
    }
}

/// A decoded frame.
#[derive(Debug, PartialEq, Eq)]
pub enum DecodedFrame {
    /// The all-zero frame: the peer is closing the session.
    Sentinel,
    /// Any other frame, as text; padding zeros stay in it as `'\0'`.
    Payload(String),
}

impl View for DecodedFrame {
    type V = DecodedView;

    open spec fn view(&self) -> DecodedView {
        match self {
            DecodedFrame::Sentinel => DecodedView::Sentinel,
            DecodedFrame::Payload(s) => DecodedView::Payload(s@),
        }
    }
}

/// Relies on `String::from_utf8_lossy`: valid UTF-8 is decoded as it
/// stands; otherwise invalid sequences become U+FFFD, which is named here.
#[verifier::external_body]
fn utf8_lossy(b: &[u8]) -> (r: String)
    ensures
        valid_utf8(b@) ==> r@ == decode_utf8(b@),
        !valid_utf8(b@) ==> r@ == lossy_text(b@),
{
    String::from_utf8_lossy(b).into_owned()
}

/// Encodes `text` as a frame: its UTF-8 bytes, cut to `FRAME_LEN` and padded
/// with zeros.
pub fn encode(text: &str) -> (r: Frame)
    ensures
        r@ == frame_of(encode_utf8(text@)),
        r.wf(),
{
    Frame::pad(text.as_bytes())
}

/// Decodes a frame: the sentinel when every byte is zero, else its text.
pub fn decode(frame: &Frame) -> (r: DecodedFrame)
    ensures
        r@ == decoded(frame@),
{
    if frame.is_sentinel() {
        DecodedFrame::Sentinel
    } else {
        DecodedFrame::Payload(utf8_lossy(frame.as_bytes()))
    }
}

/// The frame that greets a newly connected peer.
pub fn handshake() -> (r: Frame)
    ensures
        r@ == frame_of(encode_utf8(HANDSHAKE@)),
        r.wf(),
{
    encode(HANDSHAKE)
}

/// The acknowledgement token that the receiver of a frame sends back.
pub fn ack_token() -> (r: Vec<u8>)
    ensures
        r@ == ack_bytes(),
        r@.len() == ACK_LEN,
{
    let r: Vec<u8> = vec![65u8, 67u8, 75u8];
    assert(r@ =~= ack_bytes());
    r
}

} // verus!
