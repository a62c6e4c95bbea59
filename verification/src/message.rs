//! The message envelope exchanged over the signaling channel, and the event
//! names the hub recognises.

use vstd::prelude::*;
use vstd::string::*;
use crate::text::same_text;

verus! {

/// The events the hub recognises on the wire.
#[derive(Clone, Copy, Debug, PartialEq, Eq, Structural)]
pub enum EventKind {
    /// `join`: a peer announces the identity it wants to be known by.
    Join,
    /// `message`: a chat message for everybody.
    Chat,
    /// `offer`: a session offer.
    Offer,
    /// `answer`: a session answer.
    Answer,
    /// `ice-candidate`: a connectivity candidate.
    IceCandidate,
    /// `camera-frame`: one encoded camera frame, made by the hub only.
    CameraFrame,
    /// `user_joined`: made by the hub when a peer joins.
    UserJoined,
    /// `user_left`: made by the hub when a peer leaves.
    UserLeft,
    /// Any other event name.
    Unknown,
}

/// The event that an event name stands for.
pub open spec fn event_kind(name: Seq<char>) -> EventKind {
    if name == "join"@ {
        EventKind::Join
    } else if name == "message"@ {
        EventKind::Chat
    } else if name == "offer"@ {
        EventKind::Offer
    } else if name == "answer"@ {
        EventKind::Answer
    } else if name == "ice-candidate"@ {
        EventKind::IceCandidate
    } else if name == "camera-frame"@ {
        EventKind::CameraFrame
    } else if name == "user_joined"@ {
        EventKind::UserJoined
    } else if name == "user_left"@ {
        EventKind::UserLeft
    } else {
        EventKind::Unknown
    }
}

/// The name under which the hub signs the notices it makes itself.
pub open spec fn server_name() -> Seq<char> {
    "server"@
}

/// The name under which camera frames are signed.
pub open spec fn camera_name() -> Seq<char> {
    "server-camera"@
}

/// The room named in notices that belong to no particular room.
pub open spec fn default_room() -> Seq<char> {
    "default-room"@
}

/// Reads an event name.
pub fn classify(name: &str) -> (kind: EventKind)
    ensures
        kind == event_kind(name@),
{
    if same_text(name, "join") {
        EventKind::Join
    } else if same_text(name, "message") {
        EventKind::Chat
    } else if same_text(name, "offer") {
        EventKind::Offer
    } else if same_text(name, "answer") {
        EventKind::Answer
    } else if same_text(name, "ice-candidate") {
        EventKind::IceCandidate
    } else if same_text(name, "camera-frame") {
        EventKind::CameraFrame
    } else if same_text(name, "user_joined") {
        EventKind::UserJoined
    } else if same_text(name, "user_left") {
        EventKind::UserLeft
    } else {
        EventKind::Unknown
    }
}

/// What an optional string holds.
pub open spec fn optional_text(value: Option<String>) -> Option<Seq<char>> {
    match value {
        Some(s) => Some(s@),
        None => None,
    }
}

/// What an optional string slice holds.
pub open spec fn optional_str(value: Option<&str>) -> Option<Seq<char>> {
    match value {
        Some(s) => Some(s@),
        None => None,
    }
}

/// One message of the signaling channel.
#[derive(Debug, PartialEq, Eq)]
pub struct Message {
    /// The event name.
    pub event: String,
    /// The payload, which the hub never interprets.
    pub data: String,
    /// The room, carried along and never used for routing.
    pub room: String,
    /// The identity of the sender.
    pub from: String,
    /// The identity of the one peer the message is meant for, if any.
    pub to: Option<String>,
}

/// A message as plain values.
pub struct MessageView {
    pub event: Seq<char>,
    pub data: Seq<char>,
    pub room: Seq<char>,
    pub from: Seq<char>,
    pub to: Option<Seq<char>>,
}

impl View for Message {
    type V = MessageView;

    open spec fn view(&self) -> MessageView {
        MessageView {
            event: self.event@,
            data: self.data@,
            room: self.room@,
            from: self.from@,
            to: optional_text(self.to),
        }
    }
}

/// The notice that tells the others that `id` has joined `room`.
pub open spec fn user_joined_notice(id: Seq<char>, room: Seq<char>) -> MessageView {
    MessageView { event: "user_joined"@, data: id, room: room, from: server_name(), to: None }
}

/// The notice that tells the others that `id` has left.
pub open spec fn user_left_notice(id: Seq<char>) -> MessageView {
    MessageView {
        event: "user_left"@,
        data: id,
        room: default_room(),
        from: server_name(),
        to: None,
    }
}

/// The envelope around one encoded camera frame.
pub open spec fn camera_frame_notice(frame: Seq<char>) -> MessageView {
    MessageView {
        event: "camera-frame"@,
        data: frame,
        room: default_room(),
        from: camera_name(),
        to: None,
    }
}

impl Clone for Message {
    fn clone(&self) -> (copy: Self)
        ensures
            copy == *self,
    {
        let to = match &self.to {
            Some(peer) => Some(peer.clone()),
            None => None,
        };
        Message {
            event: self.event.clone(),
            data: self.data.clone(),
            room: self.room.clone(),
            from: self.from.clone(),
            to,
        }
    }
}

impl Message {
    /// The event that this message carries.
    pub fn kind(&self) -> (kind: EventKind)
        ensures
            kind == event_kind(self@.event),
    {
        classify(self.event.as_str())
    }

    /// Makes the notice that `id` has joined `room`.
    pub fn user_joined(id: &str, room: &str) -> (notice: Message)
        ensures
            notice@ == user_joined_notice(id@, room@),
    {
        Message {
            event: "user_joined".to_owned(),
            data: id.to_owned(),
            room: room.to_owned(),
            from: "server".to_owned(),
            to: None,
        }
    }

    /// Makes the notice that `id` has left.
    pub fn user_left(id: &str) -> (notice: Message)
        ensures
            notice@ == user_left_notice(id@),
    {
        Message {
            event: "user_left".to_owned(),
            data: id.to_owned(),
            room: "default-room".to_owned(),
            from: "server".to_owned(),
            to: None,
        }
    }

    /// Wraps one encoded camera frame for publication.
    pub fn camera_frame(frame: String) -> (notice: Message)
        ensures
            notice@ == camera_frame_notice(frame@),
    {
        Message {
            event: "camera-frame".to_owned(),
            data: frame,
            room: "default-room".to_owned(),
            from: "server-camera".to_owned(),
            to: None,
        }
    }
}

/// What travels to a peer: the text of a frame passed on as it came in, or a
/// notice that the hub made and that is put into its wire form where it
/// leaves for the socket.
#[derive(Debug, PartialEq, Eq)]
pub enum Outbound {
    /// The text of a peer's frame, unchanged.
    Relay(String),
    /// A notice made by the hub.
    Notice(Message),
}

/// An outbound item as plain values.
pub enum OutboundView {
    Relay(Seq<char>),
    Notice(MessageView),
}

impl View for Outbound {
    type V = OutboundView;

    open spec fn view(&self) -> OutboundView {
        match self {
            Outbound::Relay(text) => OutboundView::Relay(text@),
            Outbound::Notice(message) => OutboundView::Notice(message@),
        }
    }
}

impl Clone for Outbound {
    fn clone(&self) -> (copy: Self)
        ensures
            copy == *self,
    {
        match self {
            Outbound::Relay(text) => Outbound::Relay(text.clone()),
            Outbound::Notice(message) => Outbound::Notice(message.clone()),
        }
    }
}

} // verus!
