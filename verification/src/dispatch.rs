//! The routing policy: what the hub does with a message that a peer sent.

use vstd::prelude::*;
use vstd::string::*;
use crate::message::{event_kind, EventKind, Message, MessageView, Outbound, OutboundView};
use crate::registry::{attempted, Attempt, Registry};

verus! {

/// Where a message from a peer goes.
#[derive(Clone, Copy, Debug, PartialEq, Eq, Structural)]
pub enum Route {
    /// The sender is bound to its identity and registered, and everybody
    /// else is told.
    Join,
    /// To every registered connection, the sender's own included.
    Everyone,
    /// To the one connection named by `to`.
    Direct,
    /// To every registered connection but the one named by `from`.
    Others,
    /// Nowhere.
    Ignore,
}

/// The route of a message. Events that only the hub itself makes, and events
/// it does not know, go nowhere.
pub open spec fn route_of(message: MessageView) -> Route {
    match event_kind(message.event) {
        EventKind::Join => Route::Join,
        EventKind::Chat => Route::Everyone,
        EventKind::Offer | EventKind::Answer | EventKind::IceCandidate => if message.to.is_some() {
            Route::Direct
        } else {
            Route::Others
        },
        _ => Route::Ignore,
    }
}

/// Decides the route of a message.
pub fn route(message: &Message) -> (chosen: Route)
    ensures
        chosen == route_of(message@),
{
    match message.kind() {
        EventKind::Join => Route::Join,
        EventKind::Chat => Route::Everyone,
        EventKind::Offer | EventKind::Answer | EventKind::IceCandidate => if message.to.is_some() {
            Route::Direct
        } else {
            Route::Others
        },
        _ => Route::Ignore,
    }
}

/// Whether messages on this route are passed on as they came in.
pub open spec fn relays(chosen: Route) -> bool {
    chosen == Route::Everyone || chosen == Route::Direct || chosen == Route::Others
}

/// The identities that a relayed message goes to, among those registered.
pub open spec fn relay_audience(registered: Set<Seq<char>>, message: MessageView) -> Set<
    Seq<char>,
> {
    match route_of(message) {
        Route::Everyone => registered,
        Route::Others => registered.remove(message.from),
        Route::Direct => if registered.contains(message.to.unwrap()) {
            set![message.to.unwrap()]
        } else {
            Set::empty()
        },
        _ => Set::empty(),
    }
}

/// What the hub did in answer to one event: the item it handed out, if any,
/// and the connections it handed it to.
#[derive(Debug, PartialEq, Eq)]
pub struct Dispatch {
    /// The item that was handed out.
    pub payload: Option<Outbound>,
    /// One entry for each connection the item was handed to.
    pub report: Vec<Attempt>,
}

impl Dispatch {
    /// What was handed out, as plain values.
    pub open spec fn item(&self) -> Option<OutboundView> {
        match self.payload {
            Some(payload) => Some(payload@),
            None => None,
        }
    }

    /// The identities the item was handed to.
    pub open spec fn recipients(&self) -> Seq<Seq<char>> {
        attempted(self.report@)
    }

    /// Nothing was handed out.
    pub open spec fn is_nothing(&self) -> bool {
        self.payload.is_none() && self.report@.len() == 0
    }

    /// The answer to an event that calls for nothing.
    pub fn nothing() -> (dispatch: Dispatch)
        ensures
            dispatch.is_nothing(),
    {
        Dispatch { payload: None, report: Vec::new() }
    }
}

/// Passes a peer's frame on, as its message says: a chat message to every
/// registered connection, a negotiation message to the peer that `to` names,
/// or without a `to` to everybody but the sender. A peer that is not
/// registered is not reached, and nobody is told. `raw` is the text of the
/// frame that `message` was read from, which goes out unchanged.
pub fn relay(registry: &Registry, message: &Message, raw: &str) -> (dispatch: Dispatch)
    ensures
        relays(route_of(message@)) ==> dispatch.item() == Some(OutboundView::Relay(raw@)),
        !relays(route_of(message@)) ==> dispatch.item().is_none(),
        dispatch.recipients().no_duplicates(),
        dispatch.recipients().to_set() == relay_audience(registry@.dom(), message@),
{
    match route(message) {
        Route::Everyone => {
            let payload = Outbound::Relay(raw.to_owned());
            let report = registry.broadcast(&payload, None);
            Dispatch { payload: Some(payload), report }
        },
        Route::Others => {
            let payload = Outbound::Relay(raw.to_owned());
            let report = registry.broadcast(&payload, Some(message.from.as_str()));
            Dispatch { payload: Some(payload), report }
        },
        Route::Direct => {
            let payload = Outbound::Relay(raw.to_owned());
            let report = match &message.to {
                Some(peer) => registry.send_to(peer.as_str(), &payload),
                None => Vec::new(),
            };
            proof {
                let to = message@.to.unwrap();
                let ids = attempted(report@);
                if registry@.contains_key(to) {
                    assert(ids =~= seq![to]);
                    assert(ids.to_set() =~= set![to]) by {
                        assert(ids[0] == to);
                    }
                } else {
                    assert(ids.to_set() =~= Set::<Seq<char>>::empty());
                }
            }
            Dispatch { payload: Some(payload), report }
        },
        _ => {
            let dispatch = Dispatch::nothing();
            assert(dispatch.recipients().to_set() =~= Set::<Seq<char>>::empty());
            dispatch
        },
    }
}

} // verus!
