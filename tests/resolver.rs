use public_ip_address::cache::{ResponseCache, Timestamp};
use public_ip_address::cached::{
    after_fallback, after_save, cache_or_empty, cached_answer, default_providers, store_answer,
    CachedStep,
};
use public_ip_address::error::CacheError;
use public_ip_address::error::{Error, LookupError};
use public_ip_address::fallback::{FallbackAction, FallbackLookup};
use public_ip_address::ip::IpAddress;
use public_ip_address::lookup::{LookupProvider, Parameters};
use public_ip_address::response::LookupResponse;

fn mock(ip: &str) -> LookupProvider {
    LookupProvider::Mock(ip.to_string(), format!("http://mock/{ip}"))
}

fn at(secs: u64) -> Timestamp {
    Timestamp { secs, nanos: 0 }
}

fn answer(ip: IpAddress, provider: LookupProvider) -> LookupResponse {
    LookupResponse::new(ip, provider)
}

#[test]
fn fallback_tries_providers_in_order() {
    let providers = vec![(LookupProvider::IpInfo, None), (LookupProvider::MyIp, None), (mock("3.3.3.3"), None)];
    let mut run = FallbackLookup::new(providers, None);
    let mut contacted = Vec::new();
    let result = loop {
        match run.next_action() {
            FallbackAction::Send(i, request) => {
                contacted.push(request.url.clone());
                let outcome = if i < 2 {
                    Err(LookupError::RequestStatus(format!("Status: {}", 500 + i)))
                } else {
                    Ok(answer(IpAddress::V4(3, 3, 3, 3), mock("3.3.3.3")))
                };
                run.record_outcome(outcome);
            }
            FallbackAction::Done(result) => break result,
        }
    };
    assert_eq!(
        contacted,
        vec!["https://ipinfo.io/json", "https://api.my-ip.io/v2/ip.json", "http://mock/3.3.3.3"]
    );
    assert_eq!(result.unwrap().ip, IpAddress::V4(3, 3, 3, 3));
    assert_eq!(run.errors.len(), 2);
}

#[test]
fn fallback_stops_at_first_success() {
    let providers = vec![(mock("1.1.1.1"), None), (mock("2.2.2.2"), None)];
    let mut run = FallbackLookup::new(providers, None);
    assert!(matches!(run.next_action(), FallbackAction::Send(0, _)));
    run.record_outcome(Ok(answer(IpAddress::V4(1, 1, 1, 1), mock("1.1.1.1"))));
    match run.next_action() {
        FallbackAction::Done(Ok(r)) => assert_eq!(r.ip, IpAddress::V4(1, 1, 1, 1)),
        _ => panic!("second provider must not be contacted"),
    }
}

#[test]
fn fallback_empty_list() {
    let mut run = FallbackLookup::new(Vec::new(), Some(IpAddress::V4(8, 8, 8, 8)));
    for _ in 0..2 {
        match run.next_action() {
            FallbackAction::Done(Err(e)) => assert_eq!(
                e,
                Error::LookupError(LookupError::GenericError("No providers given".to_string()))
            ),
            _ => panic!("an empty list must fail without a request"),
        }
    }
}

#[test]
fn fallback_all_fail_keeps_every_error() {
    let target = Some(IpAddress::V4(8, 8, 8, 8));
    let providers = vec![
        (LookupProvider::MyIp, None),
        (LookupProvider::IpQuery, Some(Parameters::new("k".to_string()))),
    ];
    let mut run = FallbackLookup::new(providers, target);
    match run.next_action() {
        FallbackAction::Send(i, request) => {
            assert_eq!(i, 1);
            assert_eq!(request.url, "https://api.ipquery.io/8.8.8.8?format=json");
        }
        _ => panic!("the provider that supports targets must be asked"),
    }
    run.record_outcome(Err(LookupError::TooManyRequests("Too many requests: 429".to_string())));
    match run.next_action() {
        FallbackAction::Done(Err(Error::ProvidersFailed(errors))) => assert_eq!(
            errors,
            vec![
                LookupError::TargetNotSupported,
                LookupError::TooManyRequests("Too many requests: 429".to_string())
            ]
        ),
        _ => panic!("every provider failed"),
    }
}

#[test]
fn unsupported_target_sends_nothing() {
    let mut run = FallbackLookup::new(vec![(LookupProvider::MyIp, None)], Some(IpAddress::V4(8, 8, 8, 8)));
    match run.next_action() {
        FallbackAction::Done(Err(Error::ProvidersFailed(errors))) => {
            assert_eq!(errors, vec![LookupError::TargetNotSupported])
        }
        _ => panic!("no request may be sent"),
    }
}

#[test]
fn cached_scenario_with_ttl_one() {
    let mut cache = ResponseCache::default();
    assert!(cached_answer(&cache, &None, false, at(100)).is_none());
    let first = answer(IpAddress::V4(11, 1, 1, 1), mock("11.1.1.1"));
    store_answer(&mut cache, &None, &first, Some(1), at(100));
    // Before one second has passed the cached response is answered, whatever the providers
    let again = cached_answer(&cache, &None, false, Timestamp { secs: 100, nanos: 999_999_999 });
    assert_eq!(again, Some(first));
    // After the time to live the cache no longer answers
    assert!(cached_answer(&cache, &None, false, at(101)).is_none());
    let second = answer(IpAddress::V4(22, 2, 2, 2), mock("22.2.2.2"));
    store_answer(&mut cache, &None, &second, Some(1), at(101));
    assert_eq!(cached_answer(&cache, &None, false, at(101)).unwrap().ip, IpAddress::V4(22, 2, 2, 2));
}

#[test]
fn no_ttl_persists() {
    let mut cache = ResponseCache::default();
    let r = answer(IpAddress::V4(21, 1, 1, 1), mock("21.1.1.1"));
    store_answer(&mut cache, &None, &r, None, at(1));
    assert_eq!(cached_answer(&cache, &None, false, at(u64::MAX)), Some(r));
}

#[test]
fn zero_ttl_forces_refresh() {
    let mut cache = ResponseCache::default();
    let r = answer(IpAddress::V4(3, 3, 3, 3), mock("3.3.3.3"));
    store_answer(&mut cache, &None, &r, Some(0), at(7));
    assert!(cached_answer(&cache, &None, false, at(7)).is_none());
}

#[test]
fn target_isolation() {
    let mut cache = ResponseCache::default();
    let own = answer(IpAddress::V4(1, 1, 1, 1), mock("1.1.1.1"));
    let google = IpAddress::V4(8, 8, 8, 8);
    let other = answer(google, mock("8.8.8.8"));
    store_answer(&mut cache, &None, &own, Some(10), at(0));
    store_answer(&mut cache, &Some(google), &other, Some(1), at(0));
    // The target's record expired, the current one did not
    assert!(cached_answer(&cache, &Some(google), false, at(5)).is_none());
    assert_eq!(cached_answer(&cache, &None, false, at(5)), Some(own.clone()));
    // Refreshing the current record leaves the target's alone
    store_answer(&mut cache, &None, &own, Some(10), at(6));
    assert_eq!(cache.target_response(&google), Some(other));
}

#[test]
fn flush_bypasses_valid_cache() {
    let mut cache = ResponseCache::default();
    let old = answer(IpAddress::V4(2, 2, 2, 2), mock("2.2.2.2"));
    store_answer(&mut cache, &None, &old, None, at(0));
    assert!(cached_answer(&cache, &None, true, at(0)).is_none());
    let fresh = answer(IpAddress::V4(23, 3, 3, 3), mock("23.3.3.3"));
    store_answer(&mut cache, &None, &fresh, None, at(1));
    assert_eq!(cache.current_response(), Some(fresh));
}

#[test]
fn default_provider_list() {
    let providers = default_providers();
    let ids: Vec<LookupProvider> = providers.iter().map(|p| p.0.clone()).collect();
    assert_eq!(
        ids,
        vec![LookupProvider::IpInfo, LookupProvider::IpWhoIs, LookupProvider::MyIp, LookupProvider::FreeIpApi]
    );
}

#[test]
fn cached_steps_after_fallback_and_save() {
    let mut cache = cache_or_empty(Err(CacheError::IOError("missing".to_string())));
    assert_eq!(cache, ResponseCache::default());
    let target = Some(IpAddress::V4(8, 8, 8, 8));
    let failed = Err(Error::ProvidersFailed(vec![LookupError::TargetNotSupported]));
    match after_fallback(&mut cache, &target, failed.clone(), Some(5), at(1)) {
        CachedStep::Finished(r) => assert_eq!(r, failed),
        CachedStep::Save(_) => panic!("a failure is not stored"),
    }
    assert_eq!(cache, ResponseCache::default());
    let fresh = answer(IpAddress::V4(8, 8, 8, 8), mock("8.8.8.8"));
    match after_fallback(&mut cache, &target, Ok(fresh.clone()), Some(5), at(1)) {
        CachedStep::Save(r) => assert_eq!(r, fresh),
        CachedStep::Finished(_) => panic!("a success is saved"),
    }
    assert_eq!(cache.target_response(&IpAddress::V4(8, 8, 8, 8)), Some(fresh.clone()));
    assert_eq!(after_save(fresh.clone(), Ok(())), Ok(fresh.clone()));
    let io = CacheError::IOError("read-only".to_string());
    assert_eq!(after_save(fresh, Err(io.clone())), Err(Error::CacheError(io)));
}
