use cloudflare_ddns::api::{
    get_zone_identifier, update_ddns, ApiError, ListResponse, Lookup, UpdateResponse,
};
use cloudflare_ddns::orchestrate::{Action, CacheLoad, Config, Event, Machine, Phase, RunError};

fn config(cache_enabled: bool) -> Config {
    Config {
        zone: "example.com".to_string(),
        domain: "www.example.com".to_string(),
        cache_enabled,
    }
}

fn ip_of(action: &Action) -> String {
    match action {
        Action::WriteCache { ip } => ip.clone(),
        _ => panic!("expected a cache write"),
    }
}

#[test]
fn first_run_without_cache_file_updates_and_writes_cache() {
    // No cache file exists yet: the cached address is taken as "0.0.0.0",
    // which cannot match, so the full update sequence runs and the new
    // address is what gets written to the cache.
    let (m, a) = Machine::new(config(true));
    assert!(matches!(a, Action::ReadCache));
    let (m, a) = m.step(Event::CacheLoaded { outcome: Ok(CacheLoad::Missing) });
    assert!(matches!(a, Action::FetchCurrentIp));
    let (m, a) = m.step(Event::IpResolved { outcome: Ok("203.0.113.5".to_string()) });
    assert!(matches!(a, Action::LookupZone { zone } if zone == "example.com"));
    let (m, a) = m.step(Event::ZoneResolved { outcome: Ok("zone-1".to_string()) });
    assert!(
        matches!(a, Action::LookupRecord { zone_id, domain } if zone_id == "zone-1" && domain == "www.example.com")
    );
    let (m, a) = m.step(Event::RecordResolved { outcome: Ok("rec-9".to_string()) });
    assert!(matches!(
        &a,
        Action::PutUpdate { zone_id, record_id, domain, ip }
            if zone_id == "zone-1" && record_id == "rec-9" && domain == "www.example.com"
                && ip == "203.0.113.5"
    ));
    let (m, a) = m.step(Event::UpdateFinished { outcome: Ok(()) });
    assert_eq!(ip_of(&a), "203.0.113.5");
    let (m, a) = m.step(Event::CacheWritten { outcome: Ok(()) });
    assert!(matches!(a, Action::Stop));
    assert!(matches!(m.phase, Phase::Done { result: Ok(()) }));
}

#[test]
fn unchanged_address_stops_without_any_provider_call() {
    // The cache holds exactly the freshly resolved address: the run exits
    // successfully right after the comparison, asking for nothing else.
    let (m, a) = Machine::new(config(true));
    assert!(matches!(a, Action::ReadCache));
    let (m, a) = m.step(Event::CacheLoaded {
        outcome: Ok(CacheLoad::Present { ip: "203.0.113.5".to_string() }),
    });
    assert!(matches!(a, Action::FetchCurrentIp));
    let (m, a) = m.step(Event::IpResolved { outcome: Ok("203.0.113.5".to_string()) });
    assert!(matches!(a, Action::Stop));
    assert!(matches!(m.phase, Phase::Done { result: Ok(()) }));
}

#[test]
fn changed_address_runs_in_strict_sequence() {
    let (m, a) = Machine::new(config(true));
    assert!(matches!(a, Action::ReadCache));
    let (m, a) = m.step(Event::CacheLoaded {
        outcome: Ok(CacheLoad::Present { ip: "198.51.100.7".to_string() }),
    });
    assert!(matches!(a, Action::FetchCurrentIp));
    let (m, a) = m.step(Event::IpResolved { outcome: Ok("203.0.113.5".to_string()) });
    assert!(matches!(a, Action::LookupZone { .. }));
    let (m, a) = m.step(Event::ZoneResolved { outcome: Ok("zone-1".to_string()) });
    assert!(matches!(a, Action::LookupRecord { .. }));
    let (m, a) = m.step(Event::RecordResolved { outcome: Ok("rec-9".to_string()) });
    assert!(matches!(a, Action::PutUpdate { .. }));
    let (m, a) = m.step(Event::UpdateFinished { outcome: Ok(()) });
    assert!(matches!(a, Action::WriteCache { .. }));
    let (m, a) = m.step(Event::CacheWritten { outcome: Ok(()) });
    assert!(matches!(a, Action::Stop));
    assert!(matches!(m.phase, Phase::Done { result: Ok(()) }));
}

#[test]
fn empty_zone_list_fails_the_run() {
    let (m, _) = Machine::new(config(true));
    let (m, _) = m.step(Event::CacheLoaded { outcome: Ok(CacheLoad::Missing) });
    let (m, _) = m.step(Event::IpResolved { outcome: Ok("203.0.113.5".to_string()) });
    // The zone lookup answered HTTP 200 with a successful envelope whose
    // result list is empty; its interpretation is an ApiError naming the
    // zone lookup, and the run ends with it.
    let body = ListResponse { success: true, errors: Vec::new(), result: Some(Vec::new()) };
    let (m, a) = m.step(Event::ZoneResolved { outcome: get_zone_identifier(200, &body) });
    assert!(matches!(a, Action::Stop));
    match m.phase {
        Phase::Done { result: Err(RunError::Api { error }) } => {
            assert!(matches!(error, ApiError::NoMatch { lookup: Lookup::Zone }));
            assert_eq!(error.describe(), "No matching zone found");
        }
        _ => panic!("expected a failed run carrying the ApiError"),
    }
}

#[test]
fn failed_update_leaves_cache_unwritten() {
    // The provider answered HTTP 200 with success:false and a message: the
    // run fails with that message and never asks for the cache write.
    let (m, _) = Machine::new(config(true));
    let (m, _) = m.step(Event::CacheLoaded {
        outcome: Ok(CacheLoad::Present { ip: "198.51.100.7".to_string() }),
    });
    let (m, _) = m.step(Event::IpResolved { outcome: Ok("203.0.113.5".to_string()) });
    let (m, _) = m.step(Event::ZoneResolved { outcome: Ok("zone-1".to_string()) });
    let (m, _) = m.step(Event::RecordResolved { outcome: Ok("rec-9".to_string()) });
    let body = UpdateResponse { success: false, errors: vec!["record not found".to_string()] };
    let (m, a) = m.step(Event::UpdateFinished { outcome: update_ddns(200, &body) });
    assert!(matches!(a, Action::Stop));
    match m.phase {
        Phase::Done { result: Err(RunError::Api { error }) } => match error {
            ApiError::Unsuccessful { messages } => assert!(messages.contains("record not found")),
            _ => panic!("expected the provider's message"),
        },
        _ => panic!("expected a failed run"),
    }
}

#[test]
fn cache_disabled_updates_without_cache_write() {
    // With caching off there is nothing to load or write: the run starts
    // at the address fetch and stops right after a successful update.
    let (m, a) = Machine::new(config(false));
    assert!(matches!(a, Action::FetchCurrentIp));
    let (m, a) = m.step(Event::IpResolved { outcome: Ok("203.0.113.5".to_string()) });
    assert!(matches!(a, Action::LookupZone { .. }));
    let (m, _) = m.step(Event::ZoneResolved { outcome: Ok("zone-1".to_string()) });
    let (m, _) = m.step(Event::RecordResolved { outcome: Ok("rec-9".to_string()) });
    let (m, a) = m.step(Event::UpdateFinished { outcome: Ok(()) });
    assert!(matches!(a, Action::Stop));
    assert!(matches!(m.phase, Phase::Done { result: Ok(()) }));
}

#[test]
fn cache_read_failure_aborts_the_run() {
    let (m, _) = Machine::new(config(true));
    let (m, a) = m.step(Event::CacheLoaded { outcome: Err("permission denied".to_string()) });
    assert!(matches!(a, Action::Stop));
    match m.phase {
        Phase::Done { result: Err(RunError::Io { message }) } => {
            assert_eq!(message, "permission denied");
        }
        _ => panic!("expected an I/O failure"),
    }
}

#[test]
fn cache_write_failure_is_a_run_failure() {
    let (m, _) = Machine::new(config(true));
    let (m, _) = m.step(Event::CacheLoaded { outcome: Ok(CacheLoad::Missing) });
    let (m, _) = m.step(Event::IpResolved { outcome: Ok("203.0.113.5".to_string()) });
    let (m, _) = m.step(Event::ZoneResolved { outcome: Ok("zone-1".to_string()) });
    let (m, _) = m.step(Event::RecordResolved { outcome: Ok("rec-9".to_string()) });
    let (m, _) = m.step(Event::UpdateFinished { outcome: Ok(()) });
    let (m, a) = m.step(Event::CacheWritten { outcome: Err("disk full".to_string()) });
    assert!(matches!(a, Action::Stop));
    assert!(matches!(m.phase, Phase::Done { result: Err(RunError::Io { .. }) }));
}

#[test]
fn network_failure_resolving_ip_aborts_the_run() {
    let (m, _) = Machine::new(config(false));
    let (m, a) = m.step(Event::IpResolved { outcome: Err("connection refused".to_string()) });
    assert!(matches!(a, Action::Stop));
    match m.phase {
        Phase::Done { result: Err(e) } => {
            assert!(matches!(&e, RunError::Network { .. }));
            assert_eq!(e.describe(), "Network error: connection refused");
        }
        _ => panic!("expected a network failure"),
    }
}
