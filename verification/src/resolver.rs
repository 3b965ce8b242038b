//! The resolver: the result store, the in-flight registry, and the operations
//! that callers drive them with.
//!
//! A resolver is plain data behind `&mut self`. Whoever shares one among
//! concurrent callers puts it behind a lock and takes the lock for each
//! operation; running a resolution and waiting on a signal happen outside the
//! lock, between two operations.

use crate::entry::{found_view, IpAddress, ResolvedDns};
use crate::model::{ActionView, EventView, ResolverState};
use crate::signal::share;
use std::sync::Arc;
use tokio::sync::Notify;
use vstd::hash_map::StringHashMap;
use vstd::prelude::*;

verus! {

/// What a caller reports to [`DnsResolver::resolve_host`].
pub enum Event {
    /// The caller asks for the host.
    Called,
    /// The resolution that the caller was told to run has ended at `now`,
    /// with the addresses it gave or with `None` if it failed.
    Resolved { ips: Option<Vec<IpAddress>>, now: u64 },
    /// The signal that the caller was told to wait on has fired; it is `now`.
    Notified { now: u64 },
}

impl View for Event {
    type V = EventView;

    open spec fn view(&self) -> EventView {
        match *self {
            Event::Called => EventView::Called,
            Event::Resolved { ips: Some(ips), now } => EventView::Resolved {
                ips: Some(ips@),
                now: now as nat,
            },
            Event::Resolved { ips: None, now } => EventView::Resolved {
                ips: None,
                now: now as nat,
            },
            Event::Notified { now } => EventView::Notified { now: now as nat },
        }
    }
}

/// What [`DnsResolver::resolve_host`] tells the caller to do next.
pub enum Action {
    /// Run the resolution of the host, then report [`Event::Resolved`].
    Resolve { signal: Arc<Notify> },
    /// A resolution of the host is running: wait on `signal`, then report
    /// [`Event::Notified`].
    Wait { signal: Arc<Notify> },
    /// The call is over, with the fresh entry of the host if there is one.
    Return { found: Option<ResolvedDns> },
}

impl View for Action {
    type V = ActionView;

    open spec fn view(&self) -> ActionView {
        match *self {
            Action::Resolve { signal } => ActionView::Resolve { signal },
            Action::Wait { signal } => ActionView::Wait { signal },
            Action::Return { found } => ActionView::Return { found: found_view(found) },
        }
    }
}

/// A coalescing cache of resolved hosts.
pub struct DnsResolver {
    /// The committed entry of each host.
    resolved: StringHashMap<ResolvedDns>,
    /// The completion signal of each resolution that is running.
    in_progress: StringHashMap<Arc<Notify>>,
    /// The freshness window given to every entry.
    dns_refresh_rate: u64,
}

impl View for DnsResolver {
    type V = ResolverState;

    closed spec fn view(&self) -> ResolverState {
        ResolverState {
            resolved: Map::new(
                |hostname: Seq<char>| self.resolved@.contains_key(hostname),
                |hostname: Seq<char>| self.resolved@[hostname]@,
            ),
            in_progress: self.in_progress@,
            dns_refresh_rate: self.dns_refresh_rate as nat,
        }
    }
}

impl DnsResolver {
    /// A resolver with nothing stored and nothing running, whose entries stay
    /// fresh for `dns_refresh_rate` after they are committed.
    pub fn new(dns_refresh_rate: u64) -> (resolver: Self)
        ensures
            resolver@ == ResolverState::empty(dns_refresh_rate as nat),
            resolver@.consistent(),
    {
        let resolver = DnsResolver {
            resolved: StringHashMap::new(),
            in_progress: StringHashMap::new(),
            dns_refresh_rate,
        };
        assert(resolver@.resolved =~= Map::empty());
        resolver
    }

    /// The freshness window of this resolver.
    pub fn dns_refresh_rate(&self) -> (rate: u64)
        ensures
            rate as nat == self@.dns_refresh_rate,
    {
        self.dns_refresh_rate
    }

    /// Joins the running resolution of `hostname`, or registers a new one.
    ///
    /// Returns the completion signal of the resolution and whether this
    /// caller is the first and so has to run it. Every later caller gets the
    /// same signal until the resolution is completed.
    pub fn get_or_create_notify(&mut self, hostname: &String) -> (claim: (Arc<Notify>, bool))
        ensures
            claim.1 == !old(self)@.in_flight(hostname@),
            final(self)@ == old(self)@.claim(hostname@, claim.0),
            final(self)@.in_progress[hostname@] == claim.0,
            old(self)@.consistent() ==> final(self)@.consistent(),
    {
        match self.in_progress.get(hostname.as_str()) {
            Some(signal) => (share(signal), false),
            None => {
                let signal = Arc::new(Notify::new());
                self.in_progress.insert(hostname.clone(), share(&signal));
                (signal, true)
            },
        }
    }

    /// The entry of `hostname`, if one is stored and it is fresh at `now`.
    /// A stale entry is never handed out.
    pub fn find_resolved_host(&self, hostname: &String, now: u64) -> (found: Option<ResolvedDns>)
        ensures
            found_view(found) == self@.lookup(hostname@, now as nat),
    {
        match self.resolved.get(hostname.as_str()) {
            Some(entry) => if entry.is_fresh(now) {
                Some(entry.clone())
            } else {
                None
            },
            None => None,
        }
    }

    /// Commits what a resolution of `hostname` gave at `now`: the entry
    /// replaces whatever was stored for the host and is fresh for the window
    /// of this resolver. The registry is left alone.
    pub fn resolve_on_demand_dns(&mut self, hostname: &String, ips: Vec<IpAddress>, now: u64)
        ensures
            final(self)@ == old(self)@.commit(hostname@, ips@, now as nat),
            old(self)@.consistent() ==> final(self)@.consistent(),
    {
        let entry = ResolvedDns {
            hostname: hostname.clone(),
            ips,
            initial_query: now,
            dns_refresh_rate: self.dns_refresh_rate,
        };
        self.resolved.insert(hostname.clone(), entry);
        assert(final(self)@.resolved =~= old(self)@.commit(hostname@, ips@, now as nat).resolved);
    }

    /// One step of a call for `hostname`.
    ///
    /// A call starts with [`Event::Called`]. The first caller for a host is
    /// told to run the resolution; every caller that arrives while it runs is
    /// told to wait on its signal. When the first caller reports the outcome,
    /// the entry is committed if the resolution succeeded, the waiters are
    /// woken and the host leaves the registry, in this order and also after a
    /// failure. Each caller is then answered from the result store.
    pub fn resolve_host(&mut self, hostname: &String, event: Event) -> (action: Action)
        ensures
            (final(self)@, action@) == old(self)@.step(hostname@, event@, action@.signal()),
            old(self)@.consistent() ==> final(self)@.consistent(),
    {
        match event {
            Event::Called => {
                let (signal, is_first) = self.get_or_create_notify(hostname);
                if is_first {
                    Action::Resolve { signal }
                } else {
                    Action::Wait { signal }
                }
            },
            Event::Resolved { ips, now } => {
                let running = match self.in_progress.get(hostname.as_str()) {
                    Some(signal) => Some(share(signal)),
                    None => None,
                };
                if let Some(signal) = running {
                    if let Some(ips) = ips {
                        self.resolve_on_demand_dns(hostname, ips, now);
                    }
                    signal.notify_waiters();
                    self.in_progress.remove(hostname.as_str());
                }
                Action::Return { found: self.find_resolved_host(hostname, now) }
            },
            Event::Notified { now } => Action::Return {
                found: self.find_resolved_host(hostname, now),
            },
        }
    }
}

} // verus!
