//! What holds of the routing, whoever is registered.

use vstd::prelude::*;
use crate::connection::ConnectionView;
use crate::dispatch::{relay_audience, route_of, Route};
use crate::message::{
    event_kind, user_joined_notice, user_left_notice, EventKind, MessageView, OutboundView,
};
use crate::registry::{audience, Channel};

verus! {

/// The event names are told apart: each stands for its own event.
pub proof fn lemma_event_names()
    ensures
        event_kind("join"@) == EventKind::Join,
        event_kind("message"@) == EventKind::Chat,
        event_kind("offer"@) == EventKind::Offer,
        event_kind("answer"@) == EventKind::Answer,
        event_kind("ice-candidate"@) == EventKind::IceCandidate,
        event_kind("camera-frame"@) == EventKind::CameraFrame,
        event_kind("user_joined"@) == EventKind::UserJoined,
        event_kind("user_left"@) == EventKind::UserLeft,
{
    reveal_strlit("join");
    reveal_strlit("message");
    reveal_strlit("offer");
    reveal_strlit("answer");
    reveal_strlit("ice-candidate");
    reveal_strlit("camera-frame");
    reveal_strlit("user_joined");
    reveal_strlit("user_left");
    assert("join"@.len() == 4);
    assert("message"@.len() == 7);
    assert("offer"@.len() == 5);
    assert("answer"@.len() == 6);
    assert("ice-candidate"@.len() == 13);
    assert("camera-frame"@.len() == 12);
    assert("user_joined"@.len() == 11);
    assert("user_left"@.len() == 9);
}

/// A broadcast that excludes one of two registered connections reaches the
/// other and not the excluded one.
pub proof fn lemma_broadcast_spares_the_excluded(
    registered: Set<Seq<char>>,
    excluded: Seq<char>,
    other: Seq<char>,
)
    requires
        registered.contains(excluded),
        registered.contains(other),
        excluded != other,
    ensures
        audience(registered, Some(excluded)).contains(other),
        !audience(registered, Some(excluded)).contains(excluded),
{
}

/// A broadcast that excludes nobody reaches every registered connection and
/// no other.
pub proof fn lemma_broadcast_to_all(registered: Set<Seq<char>>)
    ensures
        audience(registered, None) == registered,
{
}

/// Registering under an identity that is registered already puts the new
/// channel in the place of the old one, which is then reached under that
/// identity no more; every other identity keeps its channel.
pub proof fn lemma_register_replaces(
    registry: Map<Seq<char>, Channel>,
    id: Seq<char>,
    channel: Channel,
)
    requires
        registry.contains_key(id),
    ensures
        registry.insert(id, channel).dom() == registry.dom(),
        registry.insert(id, channel)[id] == channel,
        forall|other: Seq<char>|
            other != id && registry.contains_key(other) ==> #[trigger] registry.insert(
                id,
                channel,
            )[other] == registry[other],
{
    assert(registry.insert(id, channel).dom() =~= registry.dom());
}

/// A `join` from a connection that is open binds it to the identity in
/// `from`, and the notice that this identity has joined goes to every other
/// registered connection and not to the one that joined.
pub proof fn lemma_join_tells_the_others(
    connection: ConnectionView,
    registered: Set<Seq<char>>,
    message: MessageView,
    raw: Seq<char>,
)
    requires
        !connection.closed,
        message.event == "join"@,
    ensures
        connection.joins(message),
        connection.after(message).identity == message.from,
        connection.reply(message, raw) == Some(
            OutboundView::Notice(user_joined_notice(message.from, message.room)),
        ),
        user_joined_notice(message.from, message.room).data == message.from,
        !connection.reply_audience(registered, message).contains(message.from),
        forall|other: Seq<char>|
            registered.contains(other) && other != message.from
                ==> #[trigger] connection.reply_audience(registered, message).contains(other),
        forall|other: Seq<char>| #[trigger]
            connection.reply_audience(registered, message).contains(other) ==> registered.contains(
                other,
            ),
{
    lemma_event_names();
}

/// When a connection that had joined is closed, the notice that its identity
/// has left names that identity, and the registry it is taken out of holds
/// it no more.
pub proof fn lemma_close_takes_identity_out(
    connection: ConnectionView,
    registry: Map<Seq<char>, Channel>,
)
    requires
        connection.leaves(),
    ensures
        !connection.registry_after_close(registry).contains_key(connection.identity),
        connection.farewell() == Some(
            OutboundView::Notice(user_left_notice(connection.identity)),
        ),
        user_left_notice(connection.identity).data == connection.identity,
        connection.farewell_audience(registry.dom()) == connection.registry_after_close(
            registry,
        ).dom(),
        audience(connection.registry_after_close(registry).dom(), None)
            == connection.farewell_audience(registry.dom()),
{
    assert(registry.remove(connection.identity).dom() =~= registry.dom().remove(
        connection.identity,
    ));
}

/// A chat message goes to every registered connection, its sender's own
/// included.
pub proof fn lemma_chat_reaches_everyone(registered: Set<Seq<char>>, message: MessageView)
    requires
        message.event == "message"@,
    ensures
        route_of(message) == Route::Everyone,
        relay_audience(registered, message) == registered,
        registered.contains(message.from) ==> relay_audience(registered, message).contains(
            message.from,
        ),
{
    lemma_event_names();
}

/// A negotiation message that names a peer goes to that peer alone, and to
/// nobody where the peer is not registered.
pub proof fn lemma_negotiation_reaches_named_peer(
    registered: Set<Seq<char>>,
    message: MessageView,
    peer: Seq<char>,
)
    requires
        message.event == "offer"@ || message.event == "answer"@ || message.event
            == "ice-candidate"@,
        message.to == Some(peer),
    ensures
        route_of(message) == Route::Direct,
        registered.contains(peer) ==> relay_audience(registered, message) == set![peer],
        !registered.contains(peer) ==> relay_audience(registered, message) == Set::<
            Seq<char>,
        >::empty(),
{
    lemma_event_names();
}

/// A negotiation message that names no peer goes to every registered
/// connection but its sender.
pub proof fn lemma_negotiation_without_peer(registered: Set<Seq<char>>, message: MessageView)
    requires
        message.event == "offer"@ || message.event == "answer"@ || message.event
            == "ice-candidate"@,
        message.to.is_none(),
    ensures
        route_of(message) == Route::Others,
        relay_audience(registered, message) == registered.remove(message.from),
{
    lemma_event_names();
}

/// The events that only the hub makes are not taken from a peer: they go
/// nowhere, and so does every event the hub does not know.
pub proof fn lemma_hub_events_are_not_routed(message: MessageView)
    requires
        event_kind(message.event) == EventKind::CameraFrame || event_kind(message.event)
            == EventKind::UserJoined || event_kind(message.event) == EventKind::UserLeft
            || event_kind(message.event) == EventKind::Unknown,
    ensures
        route_of(message) == Route::Ignore,
        forall|registered: Set<Seq<char>>| #[trigger]
            relay_audience(registered, message) == Set::<Seq<char>>::empty(),
{
}

} // verus!
