use public_ip_address::cache::{
    cache_file_name, decrypt, encrypt, now, password_from, cache_password, ResponseCache,
    ResponseRecord, Timestamp,
};
use public_ip_address::error::CacheError;
use public_ip_address::ip::IpAddress;
use public_ip_address::lookup::LookupProvider;
use public_ip_address::response::LookupResponse;

fn at(secs: u64) -> Timestamp {
    Timestamp { secs, nanos: 0 }
}

#[test]
fn test_expired() {
    let response = LookupResponse::new(
        IpAddress::V4(1, 1, 1, 1),
        LookupProvider::Mock("1.1.1.1".to_string(), String::new()),
    );
    let mut cache = ResponseCache::default();
    assert!(cache.current_is_expired(), "Empty cache should be expired");
    cache.update_current(&response, None);
    assert_eq!(cache.current_ip().unwrap(), IpAddress::V4(1, 1, 1, 1), "IP address not matching");
    assert!(!cache.current_is_expired(), "Cache with no TTL should not be expired");
    cache.update_current(&response, Some(1));
    assert!(!cache.current_is_expired(), "Fresh cache should not be expired {:#?}", cache);
    // One second after the record was stored
    let stored = cache.current_address.as_ref().unwrap().response_time;
    let later = Timestamp { secs: stored.secs + 1, nanos: stored.nanos };
    assert!(cache.current_is_expired_at(later), "Expired cache should be expired");
}

#[test]
fn test_cache_tree() {
    let addresses = [
        IpAddress::V4(1, 1, 1, 1),
        IpAddress::V4(2, 1, 1, 1),
        IpAddress::V4(3, 1, 1, 1),
    ];
    let mut cache = ResponseCache::default();
    for address in &addresses {
        let response = LookupResponse::new(*address, LookupProvider::Ipify);
        cache.update_target(*address, &response, None);
    }

    for address in &addresses {
        assert_eq!(
            cache.target_response(address).unwrap().ip,
            *address,
            "IP address not matching: {:#?}",
            cache
        );
    }
}

#[test]
fn test_cache_clear() {
    let response = LookupResponse::new(
        IpAddress::V4(1, 1, 1, 1),
        LookupProvider::Mock("1.1.1.1".to_string(), String::new()),
    );
    let mut cache = ResponseCache::new(None);
    cache.update_current(&response, None);
    let response = LookupResponse::new(IpAddress::V4(2, 2, 2, 2), LookupProvider::Ipify);
    cache.update_target(response.ip, &response, None);
    cache.clear();
    assert_eq!(cache, ResponseCache::default(), "Cache not cleared properly: {:#?}", cache);
}

#[test]
fn test_encrypt_decrypt() {
    let data = b"hello world".to_vec();
    let password = cache_password();
    let encrypted = encrypt(&data, password.as_bytes()).unwrap();
    assert_ne!(encrypted, data);
    let decrypted = decrypt(&encrypted, password.as_bytes()).unwrap();
    assert_eq!(data, decrypted);
}

#[test]
fn decrypt_with_wrong_password_fails() {
    let encrypted = encrypt(b"payload", b"right").unwrap();
    match decrypt(&encrypted, b"wrong") {
        Err(CacheError::EncryptionError(msg)) => assert!(msg.starts_with("Error decrypting: ")),
        other => panic!("unexpected {:?}", other),
    }
    assert!(matches!(decrypt(b"garbage", b"right"), Err(CacheError::EncryptionError(_))));
}

#[test]
fn expiry_boundaries() {
    let response = LookupResponse::new(IpAddress::V4(9, 9, 9, 9), LookupProvider::IpInfo);
    let record = ResponseRecord::new_at(response.clone(), Some(2), Timestamp { secs: 100, nanos: 500 });
    assert!(!record.is_expired_at(Timestamp { secs: 102, nanos: 499 }));
    assert!(record.is_expired_at(Timestamp { secs: 102, nanos: 500 }));
    // A clock that went backwards counts as no time passed
    assert!(!record.is_expired_at(at(50)));
    let zero = ResponseRecord::new_at(response.clone(), Some(0), at(100));
    assert!(zero.is_expired_at(at(100)));
    assert!(zero.is_expired_at(at(10)));
    let never = ResponseRecord::new_at(response, None, at(0));
    assert!(!never.is_expired_at(Timestamp { secs: u64::MAX, nanos: 999_999_999 }));
    assert_eq!(never.ip(), IpAddress::V4(9, 9, 9, 9));
}

#[test]
fn target_records_are_replaced_in_place() {
    let mut cache = ResponseCache::default();
    let ip = IpAddress::V4(8, 8, 8, 8);
    let first = LookupResponse::new(ip, LookupProvider::IpInfo);
    let second = LookupResponse::new(ip, LookupProvider::IpQuery);
    cache.update_target_at(ip, &first, Some(10), at(1));
    cache.update_target_at(ip, &second, Some(20), at(2));
    assert_eq!(cache.lookup_address.len(), 1);
    assert_eq!(cache.target_response(&ip).unwrap().provider, LookupProvider::IpQuery);
    assert!(!cache.target_is_expired_at(&ip, at(21)));
    assert!(cache.target_is_expired_at(&ip, at(22)));
    assert!(cache.target_is_expired_at(&IpAddress::V4(1, 2, 3, 4), at(2)));
    assert!(cache.target_response(&IpAddress::V4(1, 2, 3, 4)).is_none());
}

#[test]
fn batch_updates_and_expiry_queries() {
    let mut cache = ResponseCache::default();
    let a = IpAddress::V4(1, 0, 0, 1);
    let b = IpAddress::V4(1, 0, 0, 2);
    let batch = vec![
        (a, LookupResponse::new(a, LookupProvider::IpInfo)),
        (b, LookupResponse::new(b, LookupProvider::IpInfo)),
        (a, LookupResponse::new(a, LookupProvider::IpQuery)),
    ];
    cache.update_targets_at(&batch, Some(5), at(10));
    assert_eq!(cache.target_response(&a).unwrap().provider, LookupProvider::IpQuery);
    assert_eq!(cache.target_response(&b).unwrap().provider, LookupProvider::IpInfo);
    assert!(!cache.targets_contain_expired_at(&[a, b], at(14)));
    assert!(cache.targets_contain_expired_at(&[a, b], at(15)));
    assert!(cache.targets_contain_expired_at(&[a, IpAddress::V4(7, 7, 7, 7)], at(10)));
    assert!(!cache.targets_contain_expired_at(&[], at(10)));
    cache.update_targets(&batch, None);
    assert!(!cache.targets_contain_expired(&[a, b]));
}

#[test]
fn cache_file_names_and_password() {
    assert_eq!(cache_file_name(&None), "lookup.cache");
    assert_eq!(cache_file_name(&Some("mine.txt".to_string())), "mine.txt");
    assert_eq!(password_from(None), "lookup");
    assert_eq!(password_from(Some("id".to_string())), "id");
    assert!(!cache_password().is_empty());
    assert!(now().secs > 1_600_000_000);
}

#[test]
fn decrypt_refuses_container_declaring_too_much() {
    // A valid-looking header declaring a length near u64::MAX
    let mut container = encrypt(b"abc", b"pw").unwrap();
    assert_eq!(container.len(), 63);
    for b in &mut container[36..44] {
        *b = 0xff;
    }
    assert_eq!(
        decrypt(&container, b"pw"),
        Err(CacheError::EncryptionError("Error decrypting: TooShort".to_string()))
    );
}

#[test]
fn zero_ttl_is_expired_at_once() {
    let mut cache = ResponseCache::default();
    let response = LookupResponse::new(IpAddress::V4(5, 5, 5, 5), LookupProvider::IpInfo);
    cache.update_current(&response, Some(0));
    assert!(cache.current_is_expired());
    assert!(cache.current_address.as_ref().unwrap().is_expired());
    cache.update_target(response.ip, &response, Some(0));
    assert!(cache.target_is_expired(&response.ip));
    assert!(cache.targets_contain_expired(&[response.ip]));
}
