//! The cache as a mathematical state machine.
//!
//! A state holds the committed entries and the resolutions that are running.
//! Every executable operation of the resolver is specified as one of the
//! transitions below, and the laws of the library are stated over them.

use crate::entry::{Entry, IpAddress};
use std::sync::Arc;
use tokio::sync::Notify;
use vstd::prelude::*;

verus! {

/// The state of a resolver.
pub struct ResolverState {
    /// The result store: the last committed entry of each host.
    pub resolved: Map<Seq<char>, Entry>,
    /// The in-flight registry: the completion signal of each host whose
    /// resolution is running.
    pub in_progress: Map<Seq<char>, Arc<Notify>>,
    /// The freshness window given to every entry that is committed.
    pub dns_refresh_rate: nat,
}

/// What is reported to the resolver in the course of one call.
pub enum EventView {
    /// A caller asks for the host.
    Called,
    /// The resolution that the caller was told to run has ended at `now`,
    /// with the addresses it gave or with `None` if it failed.
    Resolved { ips: Option<Seq<IpAddress>>, now: nat },
    /// The signal that the caller was told to wait on has fired; it is `now`.
    Notified { now: nat },
}

/// What the resolver tells the caller to do next.
pub enum ActionView {
    /// Run the resolution of the host, then report `Resolved`.
    Resolve { signal: Arc<Notify> },
    /// A resolution of the host is running: wait on `signal`, then report
    /// `Notified`.
    Wait { signal: Arc<Notify> },
    /// The call is over, with the fresh entry of the host if there is one.
    Return { found: Option<Entry> },
}

impl ActionView {
    /// The signal that the action carries.
    pub open spec fn signal(self) -> Arc<Notify> {
        match self {
            ActionView::Resolve { signal } => signal,
            ActionView::Wait { signal } => signal,
            ActionView::Return { .. } => arbitrary(),
        }
    }
}

impl ResolverState {
    /// Nothing stored, nothing running.
    pub open spec fn empty(dns_refresh_rate: nat) -> ResolverState {
        ResolverState { resolved: Map::empty(), in_progress: Map::empty(), dns_refresh_rate }
    }

    /// Whether a resolution of `hostname` is running.
    pub open spec fn in_flight(self, hostname: Seq<char>) -> bool {
        self.in_progress.contains_key(hostname)
    }

    /// A caller arrives for `hostname`. If no resolution of it is running,
    /// one is registered under `signal`; otherwise nothing changes.
    pub open spec fn claim(self, hostname: Seq<char>, signal: Arc<Notify>) -> ResolverState {
        if self.in_flight(hostname) {
            self
        } else {
            ResolverState { in_progress: self.in_progress.insert(hostname, signal), ..self }
        }
    }

    /// The entry that a resolution of `hostname` ending at `now` leaves.
    pub open spec fn entry_for(self, hostname: Seq<char>, ips: Seq<IpAddress>, now: nat) -> Entry {
        Entry { hostname, ips, initial_query: now, dns_refresh_rate: self.dns_refresh_rate }
    }

    /// The outcome of a resolution replaces whatever was stored for the host.
    pub open spec fn commit(self, hostname: Seq<char>, ips: Seq<IpAddress>, now: nat)
        -> ResolverState {
        ResolverState {
            resolved: self.resolved.insert(hostname, self.entry_for(hostname, ips, now)),
            ..self
        }
    }

    /// The resolution of `hostname` is taken off the registry.
    pub open spec fn release(self, hostname: Seq<char>) -> ResolverState {
        ResolverState { in_progress: self.in_progress.remove(hostname), ..self }
    }

    /// The running resolution of `hostname` ends at `now`. Its outcome is
    /// committed if it succeeded, and the host leaves the registry either way.
    /// Without a running resolution nothing changes: only the owner of a cycle
    /// may write.
    pub open spec fn complete(self, hostname: Seq<char>, ips: Option<Seq<IpAddress>>, now: nat)
        -> ResolverState {
        if !self.in_flight(hostname) {
            self
        } else {
            match ips {
                Some(ips) => self.commit(hostname, ips, now).release(hostname),
                None => self.release(hostname),
            }
        }
    }

    /// The entry of `hostname`, if one is stored and it is fresh at `now`.
    pub open spec fn lookup(self, hostname: Seq<char>, now: nat) -> Option<Entry> {
        if self.resolved.contains_key(hostname) && self.resolved[hostname].fresh_at(now) {
            Some(self.resolved[hostname])
        } else {
            None
        }
    }

    /// One step of a call for `hostname`: the state that `event` leads to and
    /// the action handed back. `signal` is the signal that a new cycle is
    /// registered under, should this step start one.
    pub open spec fn step(self, hostname: Seq<char>, event: EventView, signal: Arc<Notify>) -> (
        ResolverState,
        ActionView,
    ) {
        match event {
            EventView::Called => if self.in_flight(hostname) {
                (self, ActionView::Wait { signal: self.in_progress[hostname] })
            } else {
                (self.claim(hostname, signal), ActionView::Resolve { signal })
            },
            EventView::Resolved { ips, now } => {
                let next = self.complete(hostname, ips, now);
                (next, ActionView::Return { found: next.lookup(hostname, now) })
            },
            EventView::Notified { now } => (
                self,
                ActionView::Return { found: self.lookup(hostname, now) },
            ),
        }
    }

    /// Every entry is stored under its own host and has the window of the
    /// resolver.
    pub open spec fn consistent(self) -> bool {
        forall|hostname: Seq<char>| #[trigger]
            self.resolved.contains_key(hostname) ==> {
                &&& self.resolved[hostname].hostname == hostname
                &&& self.resolved[hostname].dns_refresh_rate == self.dns_refresh_rate
            }
    }
}

} // verus!
