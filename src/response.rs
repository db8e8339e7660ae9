//! The normalized lookup result that every provider's reply is mapped onto.

use vstd::prelude::*;
use crate::ip::IpAddress;
use crate::lookup::LookupProvider;

verus! {

/// Lookup response: the address and whatever the provider reported about it.
///
/// Coordinates are held as the bit pattern of an `f64` in degrees (`f64::to_bits`), so that a
/// response is compared and stored exactly.
#[derive(Debug, Clone, PartialEq)]
pub struct LookupResponse {
    /// Public IP address.
    pub ip: IpAddress,
    /// Continent name.
    pub continent: Option<String>,
    /// Country name.
    pub country: Option<String>,
    /// Country ISO code.
    pub country_code: Option<String>,
    /// Region name.
    pub region: Option<String>,
    /// Postal code.
    pub postal_code: Option<String>,
    /// City name.
    pub city: Option<String>,
    /// Latitude of the IP address, as `f64` bits.
    pub latitude: Option<u64>,
    /// Longitude of the IP address, as `f64` bits.
    pub longitude: Option<u64>,
    /// Time zone of the IP address.
    pub time_zone: Option<String>,
    /// Autonomous System Number.
    pub asn: Option<String>,
    /// Autonomous System Organization.
    pub asn_org: Option<String>,
    /// Hostname of the IP address.
    pub hostname: Option<String>,
    /// Is the IP a proxy or vpn?
    pub is_proxy: Option<bool>,
    /// Provider that was used for the lookup.
    pub provider: LookupProvider,
}

/// A copy of an optional text.
pub fn duplicate_text(t: &Option<String>) -> (r: Option<String>)
    ensures
        r == *t,
{
    match t {
        Some(s) => Some(s.clone()),
        None => None,
    }
}

impl LookupResponse {
    /// A response for `ip` from `provider`, with every other field absent.
    pub fn new(ip: IpAddress, provider: LookupProvider) -> (r: LookupResponse)
        ensures
            r.ip == ip,
            r.provider == provider,
            r.continent is None,
            r.country is None,
            r.country_code is None,
            r.region is None,
            r.postal_code is None,
            r.city is None,
            r.latitude is None,
            r.longitude is None,
            r.time_zone is None,
            r.asn is None,
            r.asn_org is None,
            r.hostname is None,
            r.is_proxy is None,
    {
        LookupResponse {
            ip,
            continent: None,
            country: None,
            country_code: None,
            region: None,
            postal_code: None,
            city: None,
            latitude: None,
            longitude: None,
            time_zone: None,
            asn: None,
            asn_org: None,
            hostname: None,
            is_proxy: None,
            provider,
        }
    }

    /// A copy of this response.
    pub fn duplicate(&self) -> (r: LookupResponse)
        ensures
            r == *self,
    {
        LookupResponse {
            ip: self.ip,
            continent: duplicate_text(&self.continent),
            country: duplicate_text(&self.country),
            country_code: duplicate_text(&self.country_code),
            region: duplicate_text(&self.region),
            postal_code: duplicate_text(&self.postal_code),
            city: duplicate_text(&self.city),
            latitude: self.latitude,
            longitude: self.longitude,
            time_zone: duplicate_text(&self.time_zone),
            asn: duplicate_text(&self.asn),
            asn_org: duplicate_text(&self.asn_org),
            hostname: duplicate_text(&self.hostname),
            is_proxy: self.is_proxy,
            provider: self.provider.duplicate(),
        }
    }
}

} // verus!
