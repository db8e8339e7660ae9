//! The cached lookup: answer from the cache while its record is fresh, otherwise look up anew
//! and store the fresh response.
//!
//! The caller loads the cache file and takes [`cache_or_empty`] of the outcome, asks
//! [`cached_answer`], and on `None` runs a fallback lookup. [`after_fallback`] stores a success
//! and asks for the cache file to be written; [`after_save`] gives the final result.

use vstd::prelude::*;
use crate::cache::{slot_expired, slot_response, ResponseCache, ResponseRecord, Timestamp};
use crate::error::{CacheError, Error};
use crate::fallback::ProviderEntry;
use crate::ip::IpAddress;
use crate::lookup::LookupProvider;
use crate::response::LookupResponse;

verus! {

/// Seconds that a response of the default lookup stays fresh.
pub const DEFAULT_TTL: u64 = 5;

/// The record a cache holds for `target` (`None`: the caller's own address).
pub open spec fn slot_of(cache: ResponseCache, target: Option<IpAddress>) -> Option<ResponseRecord> {
    match target {
        Some(ip) => cache.target_record(ip),
        None => cache.current_address,
    }
}

/// The response a cache answers for `target` at `now`: none when a refresh is forced,
/// otherwise the slot's response while it is present and not expired.
pub open spec fn answer_of(
    cache: ResponseCache,
    target: Option<IpAddress>,
    flush: bool,
    now: Timestamp,
) -> Option<LookupResponse> {
    if flush || slot_expired(slot_of(cache, target), now) {
        None
    } else {
        slot_response(slot_of(cache, target))
    }
}

/// Whether `after` is `before` with `response` stored for `target` at `now`, every other slot
/// left as it was.
pub open spec fn answer_stored(
    before: ResponseCache,
    after: ResponseCache,
    target: Option<IpAddress>,
    response: LookupResponse,
    ttl: Option<u64>,
    now: Timestamp,
) -> bool {
    &&& slot_of(after, target) == Some(ResponseRecord { response, response_time: now, ttl })
    &&& after.file_name == before.file_name
    &&& match target {
        None => forall|q: IpAddress| #[trigger] after.target_record(q) == before.target_record(q),
        Some(ip) => {
            &&& after.current_address == before.current_address
            &&& forall|q: IpAddress|
                q != ip ==> #[trigger] after.target_record(q) == before.target_record(q)
        },
    }
}

/// The cached response for `target` at `now`, if the cache may answer.
pub fn cached_answer(
    cache: &ResponseCache,
    target: &Option<IpAddress>,
    flush: bool,
    now: Timestamp,
) -> (r: Option<LookupResponse>)
    ensures
        r == answer_of(*cache, *target, flush, now),
{
    if flush {
        return None;
    }
    match target {
        Some(ip) => {
            if cache.target_is_expired_at(ip, now) {
                None
            } else {
                cache.target_response(ip)
            }
        },
        None => {
            if cache.current_is_expired_at(now) {
                None
            } else {
                cache.current_response()
            }
        },
    }
}

/// Stores a fresh `response` for `target`, stamped `now`.
pub fn store_answer(
    cache: &mut ResponseCache,
    target: &Option<IpAddress>,
    response: &LookupResponse,
    ttl: Option<u64>,
    now: Timestamp,
)
    ensures
        answer_stored(*old(cache), *final(cache), *target, *response, ttl, now),
{
    match target {
        Some(ip) => cache.update_target_at(*ip, response, ttl, now),
        None => cache.update_current_at(response, ttl, now),
    }
}

/// The cache a lookup starts from: the loaded one, or an empty cache when the file was missing
/// or could not be read.
pub fn cache_or_empty(loaded: Result<ResponseCache, CacheError>) -> (r: ResponseCache)
    ensures
        match loaded {
            Ok(c) => r == c,
            Err(_) => r.current_address is None && r.lookup_address@.len() == 0 && r.file_name is None,
        },
{
    match loaded {
        Ok(c) => c,
        Err(_) => ResponseCache::new(None),
    }
}

/// What a cached lookup does once its fallback lookup is over.
pub enum CachedStep {
    /// Write the updated cache to its file, then report the outcome with [`after_save`].
    Save(LookupResponse),
    /// The lookup is over, with this result.
    Finished(Result<LookupResponse, Error>),
}

/// After the fallback lookup: a success is stored for `target`, stamped `now`, and the cache
/// is to be saved; a failure ends the lookup with the cache left as it was.
pub fn after_fallback(
    cache: &mut ResponseCache,
    target: &Option<IpAddress>,
    result: Result<LookupResponse, Error>,
    ttl: Option<u64>,
    now: Timestamp,
) -> (step: CachedStep)
    ensures
        match result {
            Ok(r) => answer_stored(*old(cache), *final(cache), *target, r, ttl, now)
                && step == CachedStep::Save(r),
            Err(e) => *final(cache) == *old(cache) && step == CachedStep::Finished(Err(e)),
        },
{
    match result {
        Ok(response) => {
            store_answer(cache, target, &response, ttl, now);
            CachedStep::Save(response)
        },
        Err(e) => CachedStep::Finished(Err(e)),
    }
}

/// After saving the cache: the fresh response, or the failure to save it.
pub fn after_save(response: LookupResponse, saved: Result<(), CacheError>) -> (r: Result<
    LookupResponse,
    Error,
>)
    ensures
        match saved {
            Ok(_) => r == Ok::<LookupResponse, Error>(response),
            Err(e) => r == Err::<LookupResponse, Error>(Error::CacheError(e)),
        },
{
    match saved {
        Ok(_) => Ok(response),
        Err(e) => Err(Error::CacheError(e)),
    }
}

/// The providers of the default lookup, in the order they are tried.
pub fn default_providers() -> (r: Vec<ProviderEntry>)
    ensures
        r@ == seq![
            (LookupProvider::IpInfo, None::<crate::lookup::Parameters>),
            (LookupProvider::IpWhoIs, None),
            (LookupProvider::MyIp, None),
            (LookupProvider::FreeIpApi, None),
        ],
{
    let mut v: Vec<ProviderEntry> = Vec::new();
    v.push((LookupProvider::IpInfo, None));
    v.push((LookupProvider::IpWhoIs, None));
    v.push((LookupProvider::MyIp, None));
    v.push((LookupProvider::FreeIpApi, None));
    assert(v@ =~= seq![
        (LookupProvider::IpInfo, None::<crate::lookup::Parameters>),
        (LookupProvider::IpWhoIs, None),
        (LookupProvider::MyIp, None),
        (LookupProvider::FreeIpApi, None),
    ]);
    v
}

/// A response stored without a time to live is answered at every later time, whatever
/// providers the next lookup would use, until a refresh is forced.
pub proof fn law_no_ttl_persists(
    before: ResponseCache,
    after: ResponseCache,
    target: Option<IpAddress>,
    response: LookupResponse,
    stored_at: Timestamp,
    later: Timestamp,
)
    requires
        answer_stored(before, after, target, response, None, stored_at),
    ensures
        answer_of(after, target, false, later) == Some(response),
{
}

/// A response stored with a time to live of zero is never answered: the next lookup is fresh.
pub proof fn law_zero_ttl_refreshes(
    before: ResponseCache,
    after: ResponseCache,
    target: Option<IpAddress>,
    response: LookupResponse,
    stored_at: Timestamp,
    later: Timestamp,
)
    requires
        answer_stored(before, after, target, response, Some(0), stored_at),
    ensures
        answer_of(after, target, false, later) is None,
{
}

/// Storing a response for a target leaves the record of the caller's own address, its answer
/// and its expiry, as they were at every time.
pub proof fn law_target_store_keeps_current(
    before: ResponseCache,
    after: ResponseCache,
    ip: IpAddress,
    response: LookupResponse,
    ttl: Option<u64>,
    stored_at: Timestamp,
    now: Timestamp,
    flush: bool,
)
    requires
        answer_stored(before, after, Some(ip), response, ttl, stored_at),
    ensures
        after.current_address == before.current_address,
        slot_expired(after.current_address, now) == slot_expired(before.current_address, now),
        answer_of(after, None, flush, now) == answer_of(before, None, flush, now),
{
}

/// Storing a response for the caller's own address leaves every target's record, answer and
/// expiry as they were at every time.
pub proof fn law_current_store_keeps_targets(
    before: ResponseCache,
    after: ResponseCache,
    response: LookupResponse,
    ttl: Option<u64>,
    stored_at: Timestamp,
    q: IpAddress,
    now: Timestamp,
    flush: bool,
)
    requires
        answer_stored(before, after, None, response, ttl, stored_at),
    ensures
        after.target_record(q) == before.target_record(q),
        slot_expired(after.target_record(q), now) == slot_expired(before.target_record(q), now),
        answer_of(after, Some(q), flush, now) == answer_of(before, Some(q), flush, now),
{
    assert(after.target_record(q) == before.target_record(q));
}

/// A forced refresh ignores even a fresh cached response; the fresh lookup's response then
/// replaces it.
pub proof fn law_flush_bypasses_cache(
    before: ResponseCache,
    after: ResponseCache,
    target: Option<IpAddress>,
    fresh: LookupResponse,
    ttl: Option<u64>,
    now: Timestamp,
)
    requires
        answer_of(before, target, false, now) is Some,
        answer_stored(before, after, target, fresh, ttl, now),
    ensures
        answer_of(before, target, true, now) is None,
        slot_response(slot_of(after, target)) == Some(fresh),
{
}

} // verus!
