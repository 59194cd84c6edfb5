//! What a websocket connection to the server does with each frame it reads.
use vstd::prelude::*;

verus! {

/// The side of the relay a websocket connection belongs to.
#[derive(Debug, Clone, Copy, PartialEq, Eq)]
pub enum Role {
    /// A watching client that sends file updates (path `/`).
    Producer,
    /// A computer that receives updates (path `/{computer_id}`).
    Consumer,
}

/// A frame read from a websocket connection.
#[derive(Debug, Clone, PartialEq, Eq)]
pub enum Frame {
    Text(String),
    Ping(Vec<u8>),
    Close,
    /// Any other frame (binary, pong, continuation, ...).
    Other,
}

/// What the connection does next.
#[derive(Debug, Clone, PartialEq, Eq)]
pub enum FrameAction {
    /// Route this text to its computer.
    Dispatch(String),
    /// Answer with a pong that carries these bytes; stop if that fails.
    Pong(Vec<u8>),
    /// Leave the read loop.
    Stop,
    /// Read the next frame.
    Continue,
}

/// The action for `next`, the next item of the connection's stream: `None`
/// where the stream ended or failed.
pub open spec fn spec_frame_action(role: Role, next: Option<Frame>) -> FrameAction {
    match next {
        None => FrameAction::Stop,
        Some(Frame::Close) => FrameAction::Stop,
        Some(Frame::Ping(bytes)) => FrameAction::Pong(bytes),
        Some(Frame::Text(text)) => match role {
            Role::Producer => FrameAction::Dispatch(text),
            Role::Consumer => FrameAction::Continue,
        },
        Some(Frame::Other) => FrameAction::Continue,
    }
}

/// Every ping, on either side and whatever its payload (the empty one
/// included), is answered with a pong carrying the same bytes.
pub proof fn lemma_ping_is_answered(role: Role, bytes: Vec<u8>)
    ensures
        spec_frame_action(role, Some(Frame::Ping(bytes))) == FrameAction::Pong(bytes),
{
}

/// A close frame, and the end or failure of the stream, end the read loop on
/// either side.
pub proof fn lemma_close_stops(role: Role)
    ensures
        spec_frame_action(role, Some(Frame::Close)) == FrameAction::Stop,
        spec_frame_action(role, None) == FrameAction::Stop,
{
}

/// A producer's text frame is routed as it came, unchanged; a consumer's
/// text frames, and every other kind of frame, are neither routed nor
/// answered, and the loop goes on.
pub proof fn lemma_only_producer_text_is_routed(role: Role, text: String)
    ensures
        role == Role::Producer ==> spec_frame_action(role, Some(Frame::Text(text)))
            == FrameAction::Dispatch(text),
        role == Role::Consumer ==> spec_frame_action(role, Some(Frame::Text(text)))
            == FrameAction::Continue,
        spec_frame_action(role, Some(Frame::Other)) == FrameAction::Continue,
{
}

/// The loop is left only on a close frame or at the end of the stream, and
/// a text is routed only when it is a producer's text frame.
pub proof fn lemma_stop_and_dispatch_causes(role: Role, next: Option<Frame>, text: String)
    ensures
        spec_frame_action(role, next) == FrameAction::Stop ==> (next is None || next
            == Some(Frame::Close)),
        spec_frame_action(role, next) == FrameAction::Dispatch(text) ==> (role == Role::Producer
            && next == Some(Frame::Text(text))),
{
}

/// Decides what a connection of `role` does with `next`.
pub fn frame_action(role: Role, next: Option<Frame>) -> (action: FrameAction)
    ensures
        action == spec_frame_action(role, next),
{
    match next {
        None => FrameAction::Stop,
        Some(Frame::Close) => FrameAction::Stop,
        Some(Frame::Ping(bytes)) => FrameAction::Pong(bytes),
        Some(Frame::Text(text)) => match role {
            Role::Producer => FrameAction::Dispatch(text),
            Role::Consumer => FrameAction::Continue,
        },
        Some(Frame::Other) => FrameAction::Continue,
    }
}

/// Whether a header byte is visible ASCII or a tab: the bytes that make a
/// header value readable as text.
pub open spec fn visible_ascii(b: u8) -> bool {
    (32 <= b && b < 127) || b == 9
}

/// Whether every byte of a header value is visible ASCII or a tab.
pub open spec fn readable_header(bytes: Seq<u8>) -> bool {
    forall|i: int| 0 <= i < bytes.len() ==> visible_ascii(#[trigger] bytes[i])
}

/// Tells whether a header value can be read as text.
pub fn is_readable_header(bytes: &[u8]) -> (r: bool)
    ensures
        r == readable_header(bytes@),
{
    let mut i: usize = 0;
    while i < bytes.len()
        invariant
            0 <= i <= bytes@.len(),
            forall|j: int| 0 <= j < i ==> visible_ascii(#[trigger] bytes@[j]),
        decreases bytes@.len() - i,
    {
        let b = bytes[i];
        if !((32 <= b && b < 127) || b == 9) {
            return false;
        }
        i = i + 1;
    }
    true
}

/// The characters that ASCII bytes stand for.
pub open spec fn ascii_chars(bytes: Seq<u8>) -> Seq<char> {
    Seq::new(bytes.len(), |i: int| bytes[i] as char)
}

/// Calls `String::from_utf8_lossy`. Trusted: for ASCII bytes (valid UTF-8,
/// each byte its own character) the text holds exactly those characters,
/// as std documents for valid UTF-8 input.
#[verifier::external_body]
fn ascii_text(bytes: &[u8]) -> (text: String)
    requires
        forall|i: int| 0 <= i < bytes@.len() ==> #[trigger] bytes@[i] < 128,
    ensures
        text@ == ascii_chars(bytes@),
{
    String::from_utf8_lossy(bytes).into_owned()
}

/// The name a producer connection is logged under: its client-id header
/// where it has one that reads as text, else `unknown`.
pub fn producer_label(client_id_header: Option<&[u8]>) -> (label: String)
    ensures
        match client_id_header {
            Some(h) => if readable_header(h@) {
                label@ == ascii_chars(h@)
            } else {
                label@ == "unknown"@
            },
            None => label@ == "unknown"@,
        },
{
    match client_id_header {
        Some(h) => {
            if is_readable_header(h) {
                ascii_text(h)
            } else {
                "unknown".to_owned()
            }
        },
        None => "unknown".to_owned(),
    }
}

} // verus!
