use dns_coalesce::entry::{IpAddress, ResolvedDns};
use dns_coalesce::resolver::{Action, DnsResolver, Event};
use std::sync::Arc;

fn host(name: &str) -> String {
    name.to_owned()
}

fn entry(name: &str, ips: Vec<IpAddress>, initial_query: u64, dns_refresh_rate: u64) -> ResolvedDns {
    ResolvedDns { hostname: host(name), ips, initial_query, dns_refresh_rate }
}

fn found(action: Action) -> Option<ResolvedDns> {
    match action {
        Action::Return { found } => found,
        _ => panic!("the call is not over"),
    }
}

#[test]
fn new_resolver_is_empty() {
    let resolver = DnsResolver::new(60);
    assert_eq!(resolver.dns_refresh_rate(), 60);
    assert_eq!(resolver.find_resolved_host(&host("example.com"), 0), None);
}

#[test]
fn entry_is_fresh_inside_its_window_only() {
    let e = entry("example.com", Vec::new(), 2, 60);
    assert!(!e.is_fresh(0));
    assert!(!e.is_fresh(1));
    assert!(e.is_fresh(2));
    assert!(e.is_fresh(30));
    assert!(e.is_fresh(61));
    assert!(!e.is_fresh(62));
    assert!(!e.is_fresh(u64::MAX));
}

#[test]
fn entry_with_empty_window_is_never_fresh() {
    let e = entry("example.com", Vec::new(), 5, 0);
    assert!(!e.is_fresh(4));
    assert!(!e.is_fresh(5));
    assert!(!e.is_fresh(6));
}

#[test]
fn freshness_does_not_overflow_at_the_end_of_time() {
    let e = entry("example.com", Vec::new(), u64::MAX - 1, u64::MAX);
    assert!(!e.is_fresh(u64::MAX - 2));
    assert!(e.is_fresh(u64::MAX - 1));
    assert!(e.is_fresh(u64::MAX));
    let last = entry("example.com", Vec::new(), u64::MAX, 1);
    assert!(last.is_fresh(u64::MAX));
    assert!(!last.is_fresh(0));
}

#[test]
fn clone_keeps_every_field() {
    let e = entry("example.com", vec![IpAddress::V4(0x7f00_0001), IpAddress::V6(1)], 7, 9);
    let copy = e.clone();
    assert_eq!(copy, e);
    assert_eq!(copy.hostname, "example.com");
    assert_eq!(copy.ips, vec![IpAddress::V4(0x7f00_0001), IpAddress::V6(1)]);
    assert_eq!(copy.initial_query, 7);
    assert_eq!(copy.dns_refresh_rate, 9);
}

#[test]
fn first_caller_owns_and_later_callers_follow() {
    let mut resolver = DnsResolver::new(60);
    let name = host("example.com");
    let (owner_signal, first) = resolver.get_or_create_notify(&name);
    assert!(first);
    let (follower_signal, second) = resolver.get_or_create_notify(&name);
    assert!(!second);
    assert!(Arc::ptr_eq(&owner_signal, &follower_signal));
    let (third_signal, third) = resolver.get_or_create_notify(&name);
    assert!(!third);
    assert!(Arc::ptr_eq(&owner_signal, &third_signal));
}

#[test]
fn hosts_do_not_share_a_resolution() {
    let mut resolver = DnsResolver::new(60);
    let (a, first_a) = resolver.get_or_create_notify(&host("a.example"));
    let (b, first_b) = resolver.get_or_create_notify(&host("b.example"));
    assert!(first_a);
    assert!(first_b);
    assert!(!Arc::ptr_eq(&a, &b));
    let (a_again, again) = resolver.get_or_create_notify(&host("a.example"));
    assert!(!again);
    assert!(Arc::ptr_eq(&a, &a_again));
}

#[test]
fn commit_stores_the_entry_with_the_window_of_the_resolver() {
    let mut resolver = DnsResolver::new(60);
    let name = host("example.com");
    resolver.resolve_on_demand_dns(&name, vec![IpAddress::V4(1)], 10);
    assert_eq!(
        resolver.find_resolved_host(&name, 10),
        Some(entry("example.com", vec![IpAddress::V4(1)], 10, 60))
    );
    assert_eq!(
        resolver.find_resolved_host(&name, 69),
        Some(entry("example.com", vec![IpAddress::V4(1)], 10, 60))
    );
    assert_eq!(resolver.find_resolved_host(&name, 70), None);
    assert_eq!(resolver.find_resolved_host(&name, 9), None);
    assert_eq!(resolver.find_resolved_host(&host("other.example"), 10), None);
}

#[test]
fn commit_replaces_the_earlier_entry() {
    let mut resolver = DnsResolver::new(60);
    let name = host("example.com");
    resolver.resolve_on_demand_dns(&name, vec![IpAddress::V4(1)], 10);
    resolver.resolve_on_demand_dns(&name, vec![IpAddress::V4(2)], 20);
    assert_eq!(
        resolver.find_resolved_host(&name, 20),
        Some(entry("example.com", vec![IpAddress::V4(2)], 20, 60))
    );
    assert_eq!(resolver.find_resolved_host(&name, 15), None);
}

#[test]
fn commit_leaves_the_registry_alone() {
    let mut resolver = DnsResolver::new(60);
    let name = host("example.com");
    let (_, first) = resolver.get_or_create_notify(&name);
    assert!(first);
    resolver.resolve_on_demand_dns(&name, Vec::new(), 1);
    let (_, again) = resolver.get_or_create_notify(&name);
    assert!(!again);
}

#[test]
fn ten_callers_share_one_resolution() {
    let mut resolver = DnsResolver::new(60);
    let name = host("example.com");
    let mut resolutions = 0;
    let mut waiting = Vec::new();
    let mut owner_signal = None;
    for _ in 0..10 {
        match resolver.resolve_host(&name, Event::Called) {
            Action::Resolve { signal } => {
                resolutions += 1;
                owner_signal = Some(signal);
            }
            Action::Wait { signal } => waiting.push(signal),
            Action::Return { .. } => panic!("no caller is answered before the resolution"),
        }
    }
    assert_eq!(resolutions, 1);
    assert_eq!(waiting.len(), 9);
    let owner_signal = owner_signal.unwrap();
    for signal in &waiting {
        assert!(Arc::ptr_eq(signal, &owner_signal));
    }

    let expected = entry("example.com", Vec::new(), 2, 60);
    let owner = resolver.resolve_host(&name, Event::Resolved { ips: Some(Vec::new()), now: 2 });
    assert_eq!(found(owner), Some(expected.clone()));
    for _ in &waiting {
        let follower = resolver.resolve_host(&name, Event::Notified { now: 2 });
        assert_eq!(found(follower), Some(expected.clone()));
    }

    // At 30 the entry is served from the store; nothing has to be resolved for it.
    assert_eq!(resolver.find_resolved_host(&name, 30), Some(expected.clone()));
    assert_eq!(resolver.find_resolved_host(&name, 61), Some(expected));
    // It has gone stale once its window of 60 has passed.
    assert_eq!(resolver.find_resolved_host(&name, 62), None);
    // The cycle is over, so a caller at 61 starts a new one.
    match resolver.resolve_host(&name, Event::Called) {
        Action::Resolve { signal } => assert!(!Arc::ptr_eq(&signal, &owner_signal)),
        _ => panic!("the caller has to start a resolution"),
    }
}

#[test]
fn failure_commits_nothing_and_frees_the_host() {
    let mut resolver = DnsResolver::new(60);
    let name = host("example.com");
    assert!(matches!(resolver.resolve_host(&name, Event::Called), Action::Resolve { .. }));
    assert!(matches!(resolver.resolve_host(&name, Event::Called), Action::Wait { .. }));
    let owner = resolver.resolve_host(&name, Event::Resolved { ips: None, now: 2 });
    assert_eq!(found(owner), None);
    let follower = resolver.resolve_host(&name, Event::Notified { now: 2 });
    assert_eq!(found(follower), None);
    assert_eq!(resolver.find_resolved_host(&name, 2), None);
    assert!(matches!(resolver.resolve_host(&name, Event::Called), Action::Resolve { .. }));
}

#[test]
fn failure_keeps_the_entry_that_is_still_fresh() {
    let mut resolver = DnsResolver::new(60);
    let name = host("example.com");
    resolver.resolve_host(&name, Event::Called);
    resolver.resolve_host(&name, Event::Resolved { ips: Some(vec![IpAddress::V6(7)]), now: 5 });
    resolver.resolve_host(&name, Event::Called);
    let owner = resolver.resolve_host(&name, Event::Resolved { ips: None, now: 20 });
    assert_eq!(found(owner), Some(entry("example.com", vec![IpAddress::V6(7)], 5, 60)));
    let late = resolver.resolve_host(&name, Event::Notified { now: 65 });
    assert_eq!(found(late), None);
}

#[test]
fn outcome_without_a_running_resolution_is_not_committed() {
    let mut resolver = DnsResolver::new(60);
    let name = host("example.com");
    let stray = resolver.resolve_host(&name, Event::Resolved { ips: Some(vec![IpAddress::V4(9)]), now: 3 });
    assert_eq!(found(stray), None);
    assert_eq!(resolver.find_resolved_host(&name, 3), None);
    assert!(matches!(resolver.resolve_host(&name, Event::Called), Action::Resolve { .. }));
}

#[test]
fn waiter_that_wakes_after_the_window_gets_nothing() {
    let mut resolver = DnsResolver::new(10);
    let name = host("example.com");
    resolver.resolve_host(&name, Event::Called);
    resolver.resolve_host(&name, Event::Called);
    let owner = resolver.resolve_host(&name, Event::Resolved { ips: Some(Vec::new()), now: 100 });
    assert_eq!(found(owner), Some(entry("example.com", Vec::new(), 100, 10)));
    let in_time = resolver.resolve_host(&name, Event::Notified { now: 109 });
    assert_eq!(found(in_time), Some(entry("example.com", Vec::new(), 100, 10)));
    let late = resolver.resolve_host(&name, Event::Notified { now: 110 });
    assert_eq!(found(late), None);
}

#[test]
fn empty_window_serves_nothing() {
    let mut resolver = DnsResolver::new(0);
    let name = host("example.com");
    resolver.resolve_host(&name, Event::Called);
    let owner = resolver.resolve_host(&name, Event::Resolved { ips: Some(Vec::new()), now: 4 });
    assert_eq!(found(owner), None);
}

#[test]
fn every_cycle_starts_exactly_one_resolution() {
    let mut resolver = DnsResolver::new(60);
    let name = host("example.com");
    let mut now = 0;
    for cycle in 0..5u32 {
        let mut resolutions = 0;
        for _ in 0..4 {
            if let Action::Resolve { .. } = resolver.resolve_host(&name, Event::Called) {
                resolutions += 1;
            }
        }
        assert_eq!(resolutions, 1);
        now += 100;
        let ips = vec![IpAddress::V4(cycle)];
        let owner = resolver.resolve_host(&name, Event::Resolved { ips: Some(ips.clone()), now });
        assert_eq!(found(owner), Some(entry("example.com", ips, now, 60)));
        assert_eq!(resolver.find_resolved_host(&name, now + 60), None);
    }
}

#[test]
fn resolutions_of_different_hosts_run_side_by_side() {
    let mut resolver = DnsResolver::new(60);
    let a = host("a.example");
    let b = host("b.example");
    assert!(matches!(resolver.resolve_host(&a, Event::Called), Action::Resolve { .. }));
    assert!(matches!(resolver.resolve_host(&b, Event::Called), Action::Resolve { .. }));
    assert!(matches!(resolver.resolve_host(&a, Event::Called), Action::Wait { .. }));
    let done_b = resolver.resolve_host(&b, Event::Resolved { ips: Some(vec![IpAddress::V4(2)]), now: 1 });
    assert_eq!(found(done_b), Some(entry("b.example", vec![IpAddress::V4(2)], 1, 60)));
    assert!(matches!(resolver.resolve_host(&a, Event::Called), Action::Wait { .. }));
    assert_eq!(resolver.find_resolved_host(&a, 1), None);
    let done_a = resolver.resolve_host(&a, Event::Resolved { ips: Some(vec![IpAddress::V4(1)]), now: 3 });
    assert_eq!(found(done_a), Some(entry("a.example", vec![IpAddress::V4(1)], 3, 60)));
    assert_eq!(
        resolver.find_resolved_host(&b, 3),
        Some(entry("b.example", vec![IpAddress::V4(2)], 1, 60))
    );
}

#[test]
fn empty_host_name_is_a_key_like_any_other() {
    let mut resolver = DnsResolver::new(60);
    let name = host("");
    assert!(matches!(resolver.resolve_host(&name, Event::Called), Action::Resolve { .. }));
    let owner = resolver.resolve_host(&name, Event::Resolved { ips: Some(Vec::new()), now: 1 });
    assert_eq!(found(owner), Some(entry("", Vec::new(), 1, 60)));
}
