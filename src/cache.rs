//! The response cache: one record for the caller's own address and one per looked-up target,
//! each stamped with the time it was stored and an optional time to live.
//!
//! Reading and writing the cache file is left to the caller; this module holds the records,
//! decides expiry, and seals or opens the bytes of an encrypted cache file.

use vstd::prelude::*;
use vstd::string::*;
use crate::error::CacheError;
use crate::ip::IpAddress;
use crate::response::LookupResponse;
use crate::text::push_str;

verus! {

/// Nanoseconds in one second.
pub const NANOS_PER_SEC: u64 = 1_000_000_000;

/// A point in time: whole seconds and the nanoseconds past them, since the Unix epoch.
#[derive(Clone, Copy, Debug, PartialEq, Eq, Structural, Hash)]
pub struct Timestamp {
    /// Whole seconds since the epoch.
    pub secs: u64,
    /// Nanoseconds past `secs`.
    pub nanos: u32,
}

impl Timestamp {
    /// The time in nanoseconds since the epoch.
    pub open spec fn total_nanos(self) -> int {
        self.secs * NANOS_PER_SEC + self.nanos
    }
}

/// Nanoseconds from `from` to `to`; zero when `to` is not after `from`.
pub open spec fn elapsed_nanos(from: Timestamp, to: Timestamp) -> int {
    if to.total_nanos() >= from.total_nanos() {
        to.total_nanos() - from.total_nanos()
    } else {
        0
    }
}

/// Relies on `SystemTime::elapsed` of `UNIX_EPOCH`: the time now, which fails when the clock
/// stands before the epoch; a duration's sub-second part is below one second.
#[verifier::external_body]
fn clock_since_epoch() -> (r: Option<Timestamp>)
    ensures
        r is Some ==> r->Some_0.nanos < NANOS_PER_SEC,
{
    std::time::UNIX_EPOCH.elapsed().ok().map(|d| Timestamp { secs: d.as_secs(), nanos: d.subsec_nanos() })
}

/// The time now by the system clock; the epoch itself when the clock stands before it.
pub fn now() -> (r: Timestamp)
    ensures
        r.nanos < NANOS_PER_SEC,
{
    match clock_since_epoch() {
        Some(t) => t,
        None => Timestamp { secs: 0, nanos: 0 },
    }
}

/// One cached response: the response, when it was stored, and its time to live in seconds
/// (`None`: it never expires).
#[derive(Debug, Clone, PartialEq)]
pub struct ResponseRecord {
    /// Cached response
    pub response: LookupResponse,
    /// When the response was stored.
    pub response_time: Timestamp,
    /// Seconds after which the record expires; `None` means never.
    pub ttl: Option<u64>,
}

/// Whether a record has expired at `now`: it has a time to live, and at least that many seconds
/// have passed since it was stored.
pub open spec fn expired_at(record: ResponseRecord, now: Timestamp) -> bool {
    match record.ttl {
        Some(t) => elapsed_nanos(record.response_time, now) >= t * NANOS_PER_SEC,
        None => false,
    }
}

/// A record stored with a time to live of zero has expired at every time, even the time it
/// was stored at or a clock reading before it.
pub proof fn law_zero_ttl_record_expired(record: ResponseRecord, now: Timestamp)
    requires
        record.ttl == Some(0u64),
    ensures
        expired_at(record, now),
{
}

/// The nanoseconds of a time, computed exactly.
fn total_nanos(t: Timestamp) -> (r: u128)
    ensures
        r == t.total_nanos(),
{
    assert(t.secs as u128 * 1_000_000_000u128 <= 0xffff_ffff_ffff_ffffu128 * 1_000_000_000u128)
        by (nonlinear_arith);
    t.secs as u128 * 1_000_000_000u128 + t.nanos as u128
}

impl ResponseRecord {
    /// A record of `response` stored at `time`.
    pub fn new_at(response: LookupResponse, ttl: Option<u64>, time: Timestamp) -> (r: ResponseRecord)
        ensures
            r.response == response,
            r.ttl == ttl,
            r.response_time == time,
    {
        ResponseRecord { response, response_time: time, ttl }
    }

    /// A record of `response` stored now.
    pub fn new(response: LookupResponse, ttl: Option<u64>) -> (r: ResponseRecord)
        ensures
            r.response == response,
            r.ttl == ttl,
    {
        ResponseRecord::new_at(response, ttl, now())
    }

    /// Whether the record has expired at `now`.
    pub fn is_expired_at(&self, now: Timestamp) -> (r: bool)
        ensures
            r == expired_at(*self, now),
    {
        match self.ttl {
            Some(ttl) => {
                let stored = total_nanos(self.response_time);
                let current = total_nanos(now);
                let elapsed: u128 = if current >= stored {
                    current - stored
                } else {
                    0
                };
                elapsed >= ttl as u128 * 1_000_000_000u128
            },
            None => false,
        }
    }

    /// Whether the record has expired by the system clock.
    pub fn is_expired(&self) -> (r: bool)
        ensures
            exists|t: Timestamp| t.nanos < NANOS_PER_SEC && r == #[trigger] expired_at(*self, t),
            self.ttl is None ==> !r,
            self.ttl == Some(0u64) ==> r,
    {
        let t = now();
        let r = self.is_expired_at(t);
        assert(t.nanos < NANOS_PER_SEC && r == expired_at(*self, t));
        r
    }

    /// The IP address of the cached response.
    pub fn ip(&self) -> (r: IpAddress)
        ensures
            r == self.response.ip,
    {
        self.response.ip
    }
}

/// The record that `entries` hold for `ip`: the first entry with that address.
pub open spec fn record_of(entries: Seq<(IpAddress, ResponseRecord)>, ip: IpAddress) -> Option<
    ResponseRecord,
>
    decreases entries.len(),
{
    if entries.len() == 0 {
        None
    } else if entries[0].0 == ip {
        Some(entries[0].1)
    } else {
        record_of(entries.drop_first(), ip)
    }
}

proof fn lemma_record_of_push(
    entries: Seq<(IpAddress, ResponseRecord)>,
    ip: IpAddress,
    record: ResponseRecord,
    q: IpAddress,
)
    requires
        record_of(entries, ip) is None,
    ensures
        record_of(entries.push((ip, record)), q) == if q == ip {
            Some(record)
        } else {
            record_of(entries, q)
        },
    decreases entries.len(),
{
    let pushed = entries.push((ip, record));
    if entries.len() > 0 {
        assert(pushed[0] == entries[0]);
        assert(pushed.drop_first() =~= entries.drop_first().push((ip, record)));
        assert(entries[0].0 != ip);
        assert(record_of(entries.drop_first(), ip) is None);
        if entries[0].0 != q {
            lemma_record_of_push(entries.drop_first(), ip, record, q);
            assert(record_of(pushed, q) == record_of(pushed.drop_first(), q));
        }
    } else {
        assert(pushed[0] == (ip, record));
        assert(record_of(entries, q) is None);
        assert(pushed.drop_first() =~= Seq::<(IpAddress, ResponseRecord)>::empty());
    }
}

proof fn lemma_record_of_update(
    entries: Seq<(IpAddress, ResponseRecord)>,
    i: int,
    ip: IpAddress,
    record: ResponseRecord,
    q: IpAddress,
)
    requires
        0 <= i < entries.len(),
        entries[i].0 == ip,
        forall|j: int| 0 <= j < i ==> entries[j].0 != ip,
    ensures
        record_of(entries.update(i, (ip, record)), q) == if q == ip {
            Some(record)
        } else {
            record_of(entries, q)
        },
    decreases i,
{
    let updated = entries.update(i, (ip, record));
    if i > 0 {
        assert(updated[0] == entries[0]);
        assert(entries[0].0 != ip);
        assert(updated.drop_first() =~= entries.drop_first().update(i - 1, (ip, record)));
        if entries[0].0 != q {
            assert forall|j: int| 0 <= j < i - 1 implies entries.drop_first()[j].0 != ip by {
                assert(entries.drop_first()[j] == entries[j + 1]);
            }
            lemma_record_of_update(entries.drop_first(), i - 1, ip, record, q);
        }
    } else {
        assert(updated[0] == (ip, record));
        assert(updated.drop_first() =~= entries.drop_first());
    }
}

/// The cached records: one for the caller's own address and one per looked-up target.
#[derive(Debug, Clone, PartialEq)]
pub struct ResponseCache {
    /// The current IP address lookup response
    pub current_address: Option<ResponseRecord>,
    /// The records of looked-up targets; the first entry for an address is its record.
    pub lookup_address: Vec<(IpAddress, ResponseRecord)>,
    /// The cache file name; `None` for the default name.
    pub file_name: Option<String>,
}

/// Whether a slot holds no record, or one that has expired at `now`.
pub open spec fn slot_expired(slot: Option<ResponseRecord>, now: Timestamp) -> bool {
    match slot {
        Some(r) => expired_at(r, now),
        None => true,
    }
}

/// The response that a slot holds.
pub open spec fn slot_response(slot: Option<ResponseRecord>) -> Option<LookupResponse> {
    match slot {
        Some(r) => Some(r.response),
        None => None,
    }
}

/// The name of the cache file: the given one, or `lookup.cache`.
pub fn cache_file_name(file_name: &Option<String>) -> (r: String)
    ensures
        file_name is Some ==> r == file_name->Some_0,
        file_name is None ==> r@ == "lookup.cache"@,
{
    match file_name {
        Some(n) => n.clone(),
        None => String::from_str("lookup.cache"),
    }
}

impl ResponseCache {
    /// The record held for target `ip`.
    pub open spec fn target_record(&self, ip: IpAddress) -> Option<ResponseRecord> {
        record_of(self.lookup_address@, ip)
    }

    /// Whether the record of at least one of `ips` is missing or has expired at `now`.
    pub open spec fn any_target_expired(&self, ips: Seq<IpAddress>, now: Timestamp) -> bool {
        exists|j: int| 0 <= j < ips.len() && slot_expired(#[trigger] self.target_record(ips[j]), now)
    }

    /// An empty cache stored under `file_name` (`None`: the default name).
    pub fn new(file_name: Option<String>) -> (r: ResponseCache)
        ensures
            r.current_address is None,
            r.lookup_address@.len() == 0,
            r.file_name == file_name,
    {
        ResponseCache { current_address: None, lookup_address: Vec::new(), file_name }
    }

    /// Drops every record, in memory; the file name stays.
    pub fn clear(&mut self)
        ensures
            final(self).current_address is None,
            final(self).lookup_address@.len() == 0,
            final(self).file_name == old(self).file_name,
    {
        self.current_address = None;
        self.lookup_address = Vec::new();
    }

    /// Stores `response` as the record of the caller's own address, stamped `now`.
    pub fn update_current_at(&mut self, response: &LookupResponse, ttl: Option<u64>, now: Timestamp)
        ensures
            final(self).current_address == Some(ResponseRecord { response: *response, response_time: now, ttl }),
            final(self).lookup_address == old(self).lookup_address,
            final(self).file_name == old(self).file_name,
    {
        self.current_address = Some(ResponseRecord::new_at(response.duplicate(), ttl, now));
    }

    /// Stores `response` as the record of the caller's own address, stamped by the system clock.
    pub fn update_current(&mut self, response: &LookupResponse, ttl: Option<u64>)
        ensures
            final(self).current_address is Some,
            final(self).current_address->Some_0.response == *response,
            final(self).current_address->Some_0.ttl == ttl,
            final(self).lookup_address == old(self).lookup_address,
            final(self).file_name == old(self).file_name,
    {
        self.update_current_at(response, ttl, now());
    }

    /// Whether the record of the caller's own address is missing or has expired at `now`.
    pub fn current_is_expired_at(&self, now: Timestamp) -> (r: bool)
        ensures
            r == slot_expired(self.current_address, now),
    {
        match &self.current_address {
            Some(current) => current.is_expired_at(now),
            None => true,
        }
    }

    /// Whether the record of the caller's own address is missing or has expired by the system
    /// clock.
    pub fn current_is_expired(&self) -> (r: bool)
        ensures
            exists|t: Timestamp|
                t.nanos < NANOS_PER_SEC && r == #[trigger] slot_expired(self.current_address, t),
            self.current_address is None ==> r,
            self.current_address is Some && self.current_address->Some_0.ttl is None ==> !r,
            self.current_address is Some && self.current_address->Some_0.ttl == Some(0u64) ==> r,
    {
        let t = now();
        let r = self.current_is_expired_at(t);
        assert(t.nanos < NANOS_PER_SEC && r == slot_expired(self.current_address, t));
        r
    }

    /// The address held for the caller.
    pub fn current_ip(&self) -> (r: Option<IpAddress>)
        ensures
            r == match self.current_address {
                Some(c) => Some(c.response.ip),
                None => None::<IpAddress>,
            },
    {
        match &self.current_address {
            Some(current) => Some(current.ip()),
            None => None,
        }
    }

    /// A copy of the response held for the caller.
    pub fn current_response(&self) -> (r: Option<LookupResponse>)
        ensures
            r == slot_response(self.current_address),
    {
        match &self.current_address {
            Some(current) => Some(current.response.duplicate()),
            None => None,
        }
    }

    /// The index of the first entry for `ip`, if any.
    fn find_target(&self, ip: &IpAddress) -> (r: Option<usize>)
        ensures
            match r {
                Some(i) => {
                    &&& i < self.lookup_address@.len()
                    &&& self.lookup_address@[i as int].0 == *ip
                    &&& forall|j: int| 0 <= j < i ==> self.lookup_address@[j].0 != *ip
                    &&& self.target_record(*ip) == Some(self.lookup_address@[i as int].1)
                },
                None => self.target_record(*ip) is None,
            },
    {
        let n = self.lookup_address.len();
        let mut i: usize = 0;
        assert(self.lookup_address@.skip(0) =~= self.lookup_address@);
        while i < n
            invariant
                n == self.lookup_address@.len(),
                0 <= i <= n,
                forall|j: int| 0 <= j < i ==> self.lookup_address@[j].0 != *ip,
                record_of(self.lookup_address@, *ip) == record_of(
                    self.lookup_address@.skip(i as int),
                    *ip,
                ),
            decreases n - i,
        {
            let ghost rest = self.lookup_address@.skip(i as int);
            assert(rest[0] == self.lookup_address@[i as int]);
            if self.lookup_address[i].0 == *ip {
                return Some(i);
            }
            assert(rest.drop_first() =~= self.lookup_address@.skip(i + 1));
            i += 1;
        }
        None
    }

    /// Stores `response` as the record of target `ip`, stamped `now`; other targets keep theirs.
    pub fn update_target_at(
        &mut self,
        ip: IpAddress,
        response: &LookupResponse,
        ttl: Option<u64>,
        now: Timestamp,
    )
        ensures
            forall|q: IpAddress| #[trigger]
                final(self).target_record(q) == if q == ip {
                    Some(ResponseRecord { response: *response, response_time: now, ttl })
                } else {
                    old(self).target_record(q)
                },
            final(self).current_address == old(self).current_address,
            final(self).file_name == old(self).file_name,
    {
        let record = ResponseRecord::new_at(response.duplicate(), ttl, now);
        let ghost before = self.lookup_address@;
        match self.find_target(&ip) {
            Some(i) => {
                self.lookup_address.set(i, (ip, record));
                proof {
                    assert forall|q: IpAddress| #[trigger]
                        record_of(self.lookup_address@, q) == if q == ip {
                            Some(record)
                        } else {
                            record_of(before, q)
                        } by {
                        lemma_record_of_update(before, i as int, ip, record, q);
                    }
                }
            },
            None => {
                self.lookup_address.push((ip, record));
                proof {
                    assert forall|q: IpAddress| #[trigger]
                        record_of(self.lookup_address@, q) == if q == ip {
                            Some(record)
                        } else {
                            record_of(before, q)
                        } by {
                        lemma_record_of_push(before, ip, record, q);
                    }
                }
            },
        }
    }

    /// Stores `response` as the record of target `ip`, stamped by the system clock.
    pub fn update_target(&mut self, ip: IpAddress, response: &LookupResponse, ttl: Option<u64>)
        ensures
            final(self).target_record(ip) is Some,
            final(self).target_record(ip)->Some_0.response == *response,
            final(self).target_record(ip)->Some_0.ttl == ttl,
            forall|q: IpAddress| q != ip ==> #[trigger] final(self).target_record(q) == old(self).target_record(q),
            final(self).current_address == old(self).current_address,
            final(self).file_name == old(self).file_name,
    {
        self.update_target_at(ip, response, ttl, now());
    }

    /// Whether the record of target `ip` is missing or has expired at `now`.
    pub fn target_is_expired_at(&self, ip: &IpAddress, now: Timestamp) -> (r: bool)
        ensures
            r == slot_expired(self.target_record(*ip), now),
    {
        match self.find_target(ip) {
            Some(i) => self.lookup_address[i].1.is_expired_at(now),
            None => true,
        }
    }

    /// Whether the record of target `ip` is missing or has expired by the system clock.
    pub fn target_is_expired(&self, ip: &IpAddress) -> (r: bool)
        ensures
            exists|t: Timestamp|
                t.nanos < NANOS_PER_SEC && r == #[trigger] slot_expired(self.target_record(*ip), t),
            self.target_record(*ip) is None ==> r,
            self.target_record(*ip) is Some && self.target_record(*ip)->Some_0.ttl is None ==> !r,
            self.target_record(*ip) is Some && self.target_record(*ip)->Some_0.ttl == Some(0u64)
                ==> r,
    {
        let t = now();
        let r = self.target_is_expired_at(ip, t);
        assert(t.nanos < NANOS_PER_SEC && r == slot_expired(self.target_record(*ip), t));
        r
    }

    /// A copy of the response held for target `ip`.
    pub fn target_response(&self, ip: &IpAddress) -> (r: Option<LookupResponse>)
        ensures
            r == slot_response(self.target_record(*ip)),
    {
        match self.find_target(ip) {
            Some(i) => Some(self.lookup_address[i].1.response.duplicate()),
            None => None,
        }
    }
}

/// The record that target `q` holds after the batch `responses` was stored at `now` over a
/// slot that held `prior`: the last response for `q` wins.
pub open spec fn batch_record(
    responses: Seq<(IpAddress, LookupResponse)>,
    q: IpAddress,
    ttl: Option<u64>,
    now: Timestamp,
    prior: Option<ResponseRecord>,
) -> Option<ResponseRecord>
    decreases responses.len(),
{
    if responses.len() == 0 {
        prior
    } else if responses.last().0 == q {
        Some(ResponseRecord { response: responses.last().1, response_time: now, ttl })
    } else {
        batch_record(responses.drop_last(), q, ttl, now, prior)
    }
}

/// Whether `after` holds the records of `before` with the batch `responses` stored at `now`.
pub open spec fn batch_stored(
    before: ResponseCache,
    after: ResponseCache,
    responses: Seq<(IpAddress, LookupResponse)>,
    ttl: Option<u64>,
    now: Timestamp,
) -> bool {
    forall|q: IpAddress| #[trigger]
        after.target_record(q) == batch_record(responses, q, ttl, now, before.target_record(q))
}

impl ResponseCache {
    /// Stores each response as the record of its address, all stamped `now`; where an address
    /// comes twice, the later response stays.
    pub fn update_targets_at(
        &mut self,
        responses: &[(IpAddress, LookupResponse)],
        ttl: Option<u64>,
        now: Timestamp,
    )
        ensures
            forall|q: IpAddress| #[trigger]
                final(self).target_record(q) == batch_record(
                    responses@,
                    q,
                    ttl,
                    now,
                    old(self).target_record(q),
                ),
            final(self).current_address == old(self).current_address,
            final(self).file_name == old(self).file_name,
    {
        let n = responses.len();
        let mut i: usize = 0;
        assert forall|q: IpAddress| #[trigger] self.target_record(q) == batch_record(
            responses@.take(0),
            q,
            ttl,
            now,
            old(self).target_record(q),
        ) by {
            assert(responses@.take(0).len() == 0);
        }
        while i < n
            invariant
                n == responses@.len(),
                0 <= i <= n,
                self.current_address == old(self).current_address,
                self.file_name == old(self).file_name,
                forall|q: IpAddress| #[trigger]
                    self.target_record(q) == batch_record(
                        responses@.take(i as int),
                        q,
                        ttl,
                        now,
                        old(self).target_record(q),
                    ),
            decreases n - i,
        {
            let ip = responses[i].0;
            self.update_target_at(ip, &responses[i].1, ttl, now);
            proof {
                let taken = responses@.take(i + 1);
                assert(taken.drop_last() =~= responses@.take(i as int));
                assert(taken.last() == responses@[i as int]);
            }
            i += 1;
        }
        assert(responses@.take(n as int) =~= responses@);
    }

    /// Stores each response as the record of its address, stamped by the system clock.
    pub fn update_targets(&mut self, responses: &[(IpAddress, LookupResponse)], ttl: Option<u64>)
        ensures
            exists|t: Timestamp| #[trigger] batch_stored(*old(self), *final(self), responses@, ttl, t),
            final(self).current_address == old(self).current_address,
            final(self).file_name == old(self).file_name,
    {
        let t = now();
        self.update_targets_at(responses, ttl, t);
        assert(batch_stored(*old(self), *self, responses@, ttl, t));
    }

    /// Whether the record of at least one of `ips` is missing or has expired at `now`.
    pub fn targets_contain_expired_at(&self, ips: &[IpAddress], now: Timestamp) -> (r: bool)
        ensures
            r == self.any_target_expired(ips@, now),
    {
        let n = ips.len();
        let mut i: usize = 0;
        while i < n
            invariant
                n == ips@.len(),
                0 <= i <= n,
                forall|j: int| 0 <= j < i ==> !slot_expired(#[trigger] self.target_record(ips@[j]), now),
            decreases n - i,
        {
            if self.target_is_expired_at(&ips[i], now) {
                return true;
            }
            i += 1;
        }
        false
    }

    /// Whether the record of at least one of `ips` is missing or has expired by the system clock.
    pub fn targets_contain_expired(&self, ips: &[IpAddress]) -> (r: bool)
        ensures
            exists|t: Timestamp|
                t.nanos < NANOS_PER_SEC && r == #[trigger] self.any_target_expired(ips@, t),
            (exists|j: int| 0 <= j < ips@.len() && #[trigger] self.target_record(ips@[j]) is None) ==> r,
            (exists|j: int|
                0 <= j < ips@.len() && #[trigger] self.target_record(ips@[j]) is Some
                    && self.target_record(ips@[j])->Some_0.ttl == Some(0u64)) ==> r,
            (forall|j: int|
                0 <= j < ips@.len() ==> #[trigger] self.target_record(ips@[j]) is Some
                    && self.target_record(ips@[j])->Some_0.ttl is None) ==> !r,
    {
        let t = now();
        let r = self.targets_contain_expired_at(ips, t);
        assert(t.nanos < NANOS_PER_SEC && r == self.any_target_expired(ips@, t));
        r
    }
}

impl Default for ResponseCache {
    /// An empty cache stored under the default file name.
    fn default() -> (r: ResponseCache)
        ensures
            r.current_address is None,
            r.lookup_address@.len() == 0,
            r.file_name is None,
    {
        ResponseCache::new(None)
    }
}

/// Bytes before the sealed data in a cocoon container: a 44-byte header and a 16-byte tag.
pub const ENVELOPE_PREFIX: usize = 60;

/// The length of the sealed data that a cocoon container declares: bytes 36 to 43 of its
/// header, big-endian.
pub open spec fn declared_length(c: Seq<u8>) -> int {
    ((((((c[36] as int * 256 + c[37]) * 256 + c[38]) * 256 + c[39]) * 256 + c[40]) * 256 + c[41])
        * 256 + c[42]) * 256 + c[43]
}

/// Whether a container is too short for the data length it declares (cocoon's `TooShort`).
pub open spec fn declares_too_much(c: Seq<u8>) -> bool {
    c.len() >= ENVELOPE_PREFIX && declared_length(c) > c.len() - ENVELOPE_PREFIX
}

/// A name for what cocoon's `Cocoon::unwrap` gives for a container under a password: the
/// data sealed in it, or nothing when the container is malformed or the password wrong.
pub uninterp spec fn cocoon_opened(password: Seq<u8>, container: Seq<u8>) -> Option<Seq<u8>>;

/// Relies on cocoon's `Cocoon::new(password)` and `Cocoon::wrap`: a container that
/// `Cocoon::unwrap` under the same password opens to `data` (a random salt and nonce go into
/// it); the container is the 60-byte prefix, whose header declares the data's length, followed
/// by the data encrypted in place.
#[verifier::external_body]
fn cocoon_wrap(password: &[u8], data: &[u8]) -> (r: Result<Vec<u8>, String>)
    ensures
        r is Ok ==> cocoon_opened(password@, r->Ok_0@) == Some(data@),
        r is Ok ==> r->Ok_0@.len() == ENVELOPE_PREFIX + data@.len(),
        r is Ok ==> declared_length(r->Ok_0@) == data@.len(),
{
    let mut cocoon = cocoon::Cocoon::new(password);
    cocoon.wrap(data).map_err(|e| format!("{:?}", e))
}

/// Relies on cocoon's `Cocoon::new(password)` and `Cocoon::unwrap`: the data sealed in the
/// container, or its error. `unwrap` adds the declared length to the prefix size and allocates
/// that much, so a container declaring more data than it holds is kept out.
#[verifier::external_body]
fn cocoon_unwrap(password: &[u8], container: &[u8]) -> (r: Result<Vec<u8>, String>)
    requires
        !declares_too_much(container@),
    ensures
        (r is Ok) == (cocoon_opened(password@, container@) is Some),
        r is Ok ==> cocoon_opened(password@, container@) == Some(r->Ok_0@),
{
    let cocoon = cocoon::Cocoon::new(password);
    cocoon.unwrap(container).map_err(|e| format!("{:?}", e))
}

/// The data length that a container of at least 60 bytes declares.
fn read_declared_length(c: &[u8]) -> (r: u64)
    requires
        c@.len() >= ENVELOPE_PREFIX,
    ensures
        r == declared_length(c@),
{
    let mut acc: u64 = c[36] as u64;
    acc = acc * 256 + c[37] as u64;
    acc = acc * 256 + c[38] as u64;
    acc = acc * 256 + c[39] as u64;
    acc = acc * 256 + c[40] as u64;
    acc = acc * 256 + c[41] as u64;
    acc = acc * 256 + c[42] as u64;
    acc = acc * 256 + c[43] as u64;
    acc
}

/// Seals the bytes of a cache file in an authenticated-encryption envelope under `password`.
pub fn encrypt(data: &[u8], password: &[u8]) -> (r: Result<Vec<u8>, CacheError>)
    ensures
        r is Ok ==> sealed_for(password@, data@, r->Ok_0@),
        r is Err ==> r->Err_0 is EncryptionError,
{
    match cocoon_wrap(password, data) {
        Ok(sealed) => Ok(sealed),
        Err(e) => {
            let mut msg = String::from_str("Error encrypting: ");
            push_str(&mut msg, e.as_str());
            Err(CacheError::EncryptionError(msg))
        },
    }
}

/// Whether `sealed` is an envelope of `data` under `password`, as `encrypt` makes them.
pub open spec fn sealed_for(password: Seq<u8>, data: Seq<u8>, sealed: Seq<u8>) -> bool {
    &&& cocoon_opened(password, sealed) == Some(data)
    &&& sealed.len() == ENVELOPE_PREFIX + data.len()
    &&& declared_length(sealed) == data.len()
}

/// What `decrypt` gives for an envelope under a password: nothing when it declares more data
/// than it holds, otherwise what cocoon opens from it.
pub open spec fn opened(password: Seq<u8>, data: Seq<u8>) -> Option<Seq<u8>> {
    if declares_too_much(data) {
        None
    } else {
        cocoon_opened(password, data)
    }
}

/// Opens the envelope of an encrypted cache file under `password`. A corrupt file gives an
/// error, never a panic.
pub fn decrypt(data: &[u8], password: &[u8]) -> (r: Result<Vec<u8>, CacheError>)
    ensures
        (r is Ok) == (opened(password@, data@) is Some),
        r is Ok ==> opened(password@, data@) == Some(r->Ok_0@),
        r is Err ==> r->Err_0 is EncryptionError,
{
    if data.len() >= ENVELOPE_PREFIX {
        let declared = read_declared_length(data);
        if declared > (data.len() - ENVELOPE_PREFIX) as u64 {
            return Err(CacheError::EncryptionError(String::from_str("Error decrypting: TooShort")));
        }
    }
    match cocoon_unwrap(password, data) {
        Ok(opened) => Ok(opened),
        Err(e) => {
            let mut msg = String::from_str("Error decrypting: ");
            push_str(&mut msg, e.as_str());
            Err(CacheError::EncryptionError(msg))
        },
    }
}

/// What `encrypt` sealed under a password, `decrypt` opens under the same password: it
/// succeeds and gives back exactly the sealed bytes.
pub proof fn law_sealed_round_trip(password: Seq<u8>, data: Seq<u8>, sealed: Seq<u8>)
    requires
        sealed_for(password, data, sealed),
    ensures
        opened(password, sealed) == Some(data),
{
}

/// Relies on mid's `get`: an identifier of this machine derived from `key`, which depends on the
/// machine and fails where none can be read.
#[verifier::external_body]
fn machine_id(key: &str) -> (r: Option<String>) {
    mid::get(key).ok()
}

/// The password of the cache envelope from this machine's identifier, or `lookup` without one.
pub fn password_from(machine: Option<String>) -> (r: String)
    ensures
        machine is Some ==> r == machine->Some_0,
        machine is None ==> r@ == "lookup"@,
{
    match machine {
        Some(id) => id,
        None => String::from_str("lookup"),
    }
}

/// The password of the cache envelope on this machine.
pub fn cache_password() -> (r: String) {
    password_from(machine_id("public-ip-address"))
}

} // verus!
