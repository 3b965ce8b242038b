//! What the cache stores: the outcome of one resolution, stamped with the time
//! it was committed and the window in which it may be served.

use vstd::prelude::*;

verus! {

/// An address that a host resolved to.
#[derive(Clone, Copy, Debug, PartialEq, Eq, Hash)]
pub enum IpAddress {
    /// An IPv4 address: its four octets as one big-endian number.
    V4(u32),
    /// An IPv6 address: its sixteen octets as one big-endian number.
    V6(u128),
}

/// The outcome of one resolution of a host.
///
/// The cache never looks into `ips`. Times are counted in whatever unit the
/// caller's clock has; `initial_query` and `dns_refresh_rate` share it.
#[derive(Debug, PartialEq, Eq)]
pub struct ResolvedDns {
    /// The host that was resolved.
    pub hostname: String,
    /// The addresses the resolution gave.
    pub ips: Vec<IpAddress>,
    /// When the outcome was committed to the cache.
    pub initial_query: u64,
    /// For how long after `initial_query` the outcome may be served.
    pub dns_refresh_rate: u64,
}

/// The mathematical value of a [`ResolvedDns`].
pub struct Entry {
    pub hostname: Seq<char>,
    pub ips: Seq<IpAddress>,
    pub initial_query: nat,
    pub dns_refresh_rate: nat,
}

impl Entry {
    /// An entry is fresh from the moment it was committed until its window has
    /// passed: `initial_query <= now < initial_query + dns_refresh_rate`.
    pub open spec fn fresh_at(self, now: nat) -> bool {
        self.initial_query <= now < self.initial_query + self.dns_refresh_rate
    }
}

impl View for ResolvedDns {
    type V = Entry;

    open spec fn view(&self) -> Entry {
        Entry {
            hostname: self.hostname@,
            ips: self.ips@,
            initial_query: self.initial_query as nat,
            dns_refresh_rate: self.dns_refresh_rate as nat,
        }
    }
}

/// The value of what a lookup hands out.
pub open spec fn found_view(found: Option<ResolvedDns>) -> Option<Entry> {
    match found {
        Some(entry) => Some(entry@),
        None => None,
    }
}

/// A copy of `ips`, address by address.
fn copy_ips(ips: &Vec<IpAddress>) -> (copy: Vec<IpAddress>)
    ensures
        copy@ == ips@,
{
    let mut copy: Vec<IpAddress> = Vec::with_capacity(ips.len());
    let mut i: usize = 0;
    while i < ips.len()
        invariant
            i <= ips.len(),
            copy@ == ips@.subrange(0, i as int),
        decreases ips.len() - i,
    {
        copy.push(ips[i]);
        i = i + 1;
        assert(copy@ =~= ips@.subrange(0, i as int));
    }
    assert(ips@.subrange(0, ips.len() as int) =~= ips@);
    copy
}

impl ResolvedDns {
    /// Whether the entry may still be served at `now`. The difference is only
    /// taken once `now` is known not to lie before the commit, and the window
    /// is never added to the stamp, so nothing can overflow.
    pub fn is_fresh(&self, now: u64) -> (fresh: bool)
        ensures
            fresh == self@.fresh_at(now as nat),
    {
        self.initial_query <= now && now - self.initial_query < self.dns_refresh_rate
    }
}

impl Clone for ResolvedDns {
    fn clone(&self) -> (copy: Self)
        ensures
            copy@ == self@,
    {
        ResolvedDns {
            hostname: self.hostname.clone(),
            ips: copy_ips(&self.ips),
            initial_query: self.initial_query,
            dns_refresh_rate: self.dns_refresh_rate,
        }
    }
}

} // verus!
