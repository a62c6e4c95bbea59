//! The life of one connection: unbound, then joined under an identity, then
//! closed.

use vstd::prelude::*;
use vstd::string::*;
use crate::dispatch::{relay, relay_audience, relays, route, route_of, Dispatch, Route};
use crate::message::{
    user_joined_notice, user_left_notice, Message, MessageView, Outbound, OutboundView,
};
use crate::registry::{Channel, Registry};

verus! {

/// Where a connection stands in its life.
#[derive(Clone, Copy, Debug, PartialEq, Eq, Structural)]
pub enum Phase {
    /// No identity has been bound yet.
    Unbound,
    /// Bound to an identity and registered under it.
    Joined,
    /// Its socket is gone.
    Closed,
}

/// The state that the reading side of a connection keeps.
pub struct Connection {
    identity: String,
    closed: bool,
}

/// A connection's state as plain values.
pub struct ConnectionView {
    /// The bound identity; empty while none is bound.
    pub identity: Seq<char>,
    /// Whether the connection has been closed.
    pub closed: bool,
}

impl ConnectionView {
    /// The phase that this state stands for.
    pub open spec fn phase(self) -> Phase {
        if self.closed {
            Phase::Closed
        } else if self.identity.len() > 0 {
            Phase::Joined
        } else {
            Phase::Unbound
        }
    }

    /// Whether `message` makes this connection join.
    pub open spec fn joins(self, message: MessageView) -> bool {
        !self.closed && route_of(message) == Route::Join
    }

    /// The connection as it is after `message` has been received.
    pub open spec fn after(self, message: MessageView) -> ConnectionView {
        if self.joins(message) {
            ConnectionView { identity: message.from, closed: false }
        } else {
            self
        }
    }

    /// What is handed out in answer to `message`, which came in as the text
    /// `raw`.
    pub open spec fn reply(self, message: MessageView, raw: Seq<char>) -> Option<OutboundView> {
        if self.closed {
            None
        } else if route_of(message) == Route::Join {
            Some(OutboundView::Notice(user_joined_notice(message.from, message.room)))
        } else if relays(route_of(message)) {
            Some(OutboundView::Relay(raw))
        } else {
            None
        }
    }

    /// The identities the answer to `message` goes to, where `registered` are
    /// the identities registered when the message comes in.
    pub open spec fn reply_audience(self, registered: Set<Seq<char>>, message: MessageView) -> Set<
        Seq<char>,
    > {
        if self.closed {
            Set::empty()
        } else if route_of(message) == Route::Join {
            registered.remove(message.from)
        } else {
            relay_audience(registered, message)
        }
    }

    /// Whether closing this connection takes an identity out of the registry.
    pub open spec fn leaves(self) -> bool {
        self.phase() == Phase::Joined
    }

    /// The registry as it is after this connection has been closed.
    pub open spec fn registry_after_close(self, registry: Map<Seq<char>, Channel>) -> Map<
        Seq<char>,
        Channel,
    > {
        if self.leaves() {
            registry.remove(self.identity)
        } else {
            registry
        }
    }

    /// What is handed out when this connection is closed.
    pub open spec fn farewell(self) -> Option<OutboundView> {
        if self.leaves() {
            Some(OutboundView::Notice(user_left_notice(self.identity)))
        } else {
            None
        }
    }

    /// The identities that are told when this connection is closed, where
    /// `registered` are the identities registered at that moment.
    pub open spec fn farewell_audience(self, registered: Set<Seq<char>>) -> Set<Seq<char>> {
        if self.leaves() {
            registered.remove(self.identity)
        } else {
            Set::empty()
        }
    }
}

impl View for Connection {
    type V = ConnectionView;

    closed spec fn view(&self) -> ConnectionView {
        ConnectionView { identity: self.identity@, closed: self.closed }
    }
}

impl Connection {
    /// A connection that has just been accepted: unbound.
    pub fn new() -> (connection: Connection)
        ensures
            connection@ == (ConnectionView { identity: Seq::empty(), closed: false }),
            connection@.phase() == Phase::Unbound,
    {
        Connection { identity: String::new(), closed: false }
    }

    /// The identity this connection is bound to; empty while it is unbound.
    pub fn identity(&self) -> (identity: &str)
        ensures
            identity@ == self@.identity,
    {
        self.identity.as_str()
    }

    /// Where the connection stands in its life.
    pub fn phase(&self) -> (phase: Phase)
        ensures
            phase == self@.phase(),
    {
        if self.closed {
            Phase::Closed
        } else if !self.identity.as_str().is_empty() {
            Phase::Joined
        } else {
            Phase::Unbound
        }
    }

    /// Handles one message that the peer sent, which came in as the text
    /// `raw`. A `join` binds the connection to the identity in `from`,
    /// registers `channel` under it and tells every other registered
    /// connection that the peer has joined; an identity that the connection
    /// was bound to before stays registered. Every other message is passed on
    /// as [`relay`] says, or dropped. A closed connection handles nothing.
    pub fn receive(
        &mut self,
        registry: &mut Registry,
        channel: Channel,
        message: &Message,
        raw: &str,
    ) -> (dispatch: Dispatch)
        ensures
            final(self)@ == old(self)@.after(message@),
            old(self)@.joins(message@) ==> final(registry)@ == old(registry)@.insert(
                message@.from,
                channel,
            ),
            !old(self)@.joins(message@) ==> final(registry)@ == old(registry)@,
            dispatch.item() == old(self)@.reply(message@, raw@),
            dispatch.recipients().no_duplicates(),
            dispatch.recipients().to_set() == old(self)@.reply_audience(
                old(registry)@.dom(),
                message@,
            ),
    {
        if self.closed {
            let dispatch = Dispatch::nothing();
            assert(dispatch.recipients().to_set() =~= Set::<Seq<char>>::empty());
            return dispatch;
        }
        match route(message) {
            Route::Join => {
                self.identity = message.from.clone();
                let notice = Message::user_joined(self.identity.as_str(), message.room.as_str());
                registry.register(self.identity.as_str(), channel);
                let payload = Outbound::Notice(notice);
                let report = registry.broadcast(&payload, Some(self.identity.as_str()));
                assert(old(registry)@.insert(message@.from, channel).dom().remove(message@.from)
                    =~= old(registry)@.dom().remove(message@.from));
                Dispatch { payload: Some(payload), report }
            },
            _ => relay(registry, message, raw),
        }
    }

    /// Closes the connection. If it had joined, its identity is taken out of
    /// the registry and every connection that is still registered is told
    /// that the peer has left. Closing a second time does nothing.
    pub fn close(&mut self, registry: &mut Registry) -> (dispatch: Dispatch)
        ensures
            final(self)@ == (ConnectionView { identity: old(self)@.identity, closed: true }),
            final(registry)@ == old(self)@.registry_after_close(old(registry)@),
            dispatch.item() == old(self)@.farewell(),
            dispatch.recipients().no_duplicates(),
            dispatch.recipients().to_set() == old(self)@.farewell_audience(old(registry)@.dom()),
    {
        if self.closed || self.identity.as_str().is_empty() {
            self.closed = true;
            let dispatch = Dispatch::nothing();
            assert(dispatch.recipients().to_set() =~= Set::<Seq<char>>::empty());
            return dispatch;
        }
        self.closed = true;
        registry.unregister(self.identity.as_str());
        let payload = Outbound::Notice(Message::user_left(self.identity.as_str()));
        let report = registry.broadcast(&payload, None);
        Dispatch { payload: Some(payload), report }
    }
}

} // verus!
