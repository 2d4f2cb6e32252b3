use vstd::prelude::*;
use crate::event::{ConnectionType, SystemEvent};

verus! {

/// What identifies an internet connection: its profile name and link type.
#[derive(Debug)]
pub struct NetworkIdentity {
    pub name: String,
    pub conn_type: ConnectionType,
}

impl View for NetworkIdentity {
    type V = (Seq<char>, ConnectionType);

    open spec fn view(&self) -> (Seq<char>, ConnectionType) {
        (self.name@, self.conn_type)
    }
}

/// The identity of the connection last reported, if any.
#[derive(Debug)]
pub struct NetworkCache {
    pub last: Option<NetworkIdentity>,
}

/// The view of an optional identity.
pub open spec fn identity_view(i: Option<NetworkIdentity>) -> Option<(Seq<char>, ConnectionType)> {
    match i {
        Some(n) => Some(n@),
        None => None,
    }
}

/// The events a change from `prev` to `cur` gives rise to, in order: a disconnect
/// when there was a connection, then a connect when there is one now.
pub open spec fn network_events(prev: Option<NetworkIdentity>, cur: Option<NetworkIdentity>) -> Seq<SystemEvent> {
    if identity_view(prev) == identity_view(cur) {
        seq![]
    } else {
        let down: Seq<SystemEvent> = if prev is Some { seq![SystemEvent::NetworkDisconnected] } else { seq![] };
        match cur {
            Some(n) => down.push(SystemEvent::NetworkConnected { name: n.name, conn_type: n.conn_type }),
            None => down,
        }
    }
}

/// The identity the cache holds after a report of `cur`: unchanged when equal, else `cur`.
pub open spec fn network_next(prev: Option<NetworkIdentity>, cur: Option<NetworkIdentity>) -> Option<NetworkIdentity> {
    if identity_view(prev) == identity_view(cur) {
        prev
    } else {
        cur
    }
}

fn same_identity(a: &Option<NetworkIdentity>, b: &Option<NetworkIdentity>) -> (r: bool)
    ensures
        r == (identity_view(*a) == identity_view(*b)),
{
    match (a, b) {
        (Some(x), Some(y)) => x.name == y.name && x.conn_type == y.conn_type,
        (None, None) => true,
        _ => false,
    }
}

impl NetworkCache {
    /// The cache primed with the connection found when monitoring starts.
    pub fn primed(initial: Option<NetworkIdentity>) -> (r: NetworkCache)
        ensures
            r.last == initial,
    {
        NetworkCache { last: initial }
    }

    /// Compares a report of the current connection with the cache; on a change
    /// stores it and returns the events, in the order they are to be sent.
    pub fn observe(&mut self, current: Option<NetworkIdentity>) -> (r: Vec<SystemEvent>)
        ensures
            r@ == network_events(old(self).last, current),
            final(self).last == network_next(old(self).last, current),
    {
        let mut events: Vec<SystemEvent> = Vec::new();
        if same_identity(&self.last, &current) {
            return events;
        }
        if self.last.is_some() {
            events.push(SystemEvent::NetworkDisconnected);
        }
        match &current {
            Some(n) => {
                events.push(SystemEvent::NetworkConnected { name: n.name.clone(), conn_type: n.conn_type });
            },
            None => {},
        }
        self.last = current;
        events
    }
}

/// Reporting the same connection twice in a row gives events only the first time.
pub proof fn lemma_network_repeat_is_silent(prev: Option<NetworkIdentity>, cur: Option<NetworkIdentity>)
    ensures
        network_events(network_next(prev, cur), cur) == Seq::<SystemEvent>::empty(),
        network_next(network_next(prev, cur), cur) == network_next(prev, cur),
{
}

} // verus!
