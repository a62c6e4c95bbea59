//! The camera's side of the hub: frames that the capture loop read and
//! compressed are put into text and onto the queue of the frame publisher.

use vstd::prelude::*;
use tokio::sync::mpsc::UnboundedSender;
use crate::capture::{Action, CaptureSession, CaptureState, SessionModel, Signal};
use crate::channel::offer;

verus! {

/// The text that stands for `bytes` on the wire: their base64 form in the
/// standard alphabet, padded.
pub uninterp spec fn base64_text(bytes: Seq<u8>) -> Seq<char>;

/// Whether a frame of `len` bytes can be put into text: the length of the
/// text, four characters for every three bytes begun, has to fit the machine.
pub open spec fn encodable(len: nat) -> bool {
    (len / 3) * 4 + 4 <= usize::MAX
}

/// Calls `Engine::encode` of the base64 crate on its `STANDARD` engine. The
/// call panics where the length of its result does not fit in `usize`, which
/// `requires` leaves out; else it returns the base64 text of `bytes`, which
/// depends on `bytes` alone.
#[verifier::external_body]
fn base64_standard(bytes: &[u8]) -> (text: String)
    requires
        encodable(bytes@.len()),
    ensures
        text@ == base64_text(bytes@),
{
    base64::Engine::encode(&base64::engine::general_purpose::STANDARD, bytes)
}

/// Tells whether a frame of `len` bytes can be put into text.
pub fn can_encode(len: usize) -> (fits: bool)
    ensures
        fits == encodable(len as nat),
{
    len / 3 <= (usize::MAX - 4) / 4
}

/// Puts one compressed frame into the text that carries it on the wire.
pub fn encode_frame(jpeg: &[u8]) -> (text: String)
    requires
        encodable(jpeg@.len()),
    ensures
        text@ == base64_text(jpeg@),
{
    base64_standard(jpeg)
}

/// Whether a frame of `len` bytes is put on the queue by a session in this
/// state.
pub open spec fn takes_frame(session: SessionModel, len: nat) -> bool {
    session.state == CaptureState::Capturing && session.encoding && encodable(len)
}

/// The producing end of the camera: it holds the queue on which frames go
/// to the frame publisher.
pub struct CameraServer {
    frame_sender: UnboundedSender<String>,
}

impl CameraServer {
    /// The queue that the frames are put on.
    pub closed spec fn queue(&self) -> UnboundedSender<String> {
        self.frame_sender
    }

    /// A camera server that puts its frames on `frame_sender`.
    pub fn new(frame_sender: UnboundedSender<String>) -> (server: Self)
        ensures
            server.queue() == frame_sender,
    {
        Self { frame_sender }
    }

    /// Takes one frame that the driver read and compressed. Where the
    /// session waits for it, the frame is put into text and onto the queue,
    /// and the session is told whether the queue took it: if so the loop goes
    /// on, if not it ends, for nobody is left to take frames. A frame too
    /// long to be put into text counts as one that could not be compressed.
    /// Where the session does not wait for a frame, nothing is put on the
    /// queue.
    pub fn handle_frame(&self, session: &mut CaptureSession, jpeg: &[u8]) -> (action: Action)
        ensures
            final(session)@.valid(),
            takes_frame(old(session)@, jpeg@.len()) ==> ((final(session)@, action)
                == old(session)@.next(Signal::Published(true)) || (final(session)@, action) == old(session)@.next(
                Signal::Published(false),
            )),
            !takes_frame(old(session)@, jpeg@.len()) ==> (final(session)@, action)
                == old(session)@.next(Signal::Unencodable),
    {
        let awaited = match session.state() {
            CaptureState::Capturing => session.encoding(),
            _ => false,
        };
        if awaited && can_encode(jpeg.len()) {
            let accepted = offer(&self.frame_sender, encode_frame(jpeg));
            session.advance(Signal::Published(accepted))
        } else {
            session.advance(Signal::Unencodable)
        }
    }
}

} // verus!
