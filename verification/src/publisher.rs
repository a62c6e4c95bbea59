//! The frame publisher: each frame that comes off the camera's queue goes to
//! every registered connection.

use vstd::prelude::*;
use crate::dispatch::Dispatch;
use crate::message::{camera_frame_notice, Message, Outbound, OutboundView};
use crate::registry::Registry;

verus! {

/// Wraps one frame, as the text that came off the queue, in a camera-frame
/// message and hands it to every registered connection.
pub fn publish_frame(registry: &Registry, frame: String) -> (dispatch: Dispatch)
    ensures
        dispatch.item() == Some(OutboundView::Notice(camera_frame_notice(frame@))),
        dispatch.recipients().no_duplicates(),
        dispatch.recipients().to_set() == registry@.dom(),
{
    let payload = Outbound::Notice(Message::camera_frame(frame));
    let report = registry.broadcast(&payload, None);
    Dispatch { payload: Some(payload), report }
}

} // verus!
