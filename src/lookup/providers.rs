//! The concrete lookup providers and the interface they share.
//!
//! Each provider builds its request URL from an optional API key and an optional target
//! address, may attach authentication, and says whether it can look up addresses other than
//! the caller's own. Decoding a provider's reply body is done where its JSON shape is known.

use vstd::prelude::*;
use vstd::string::*;
use crate::ip::{ip_text, IpAddress};
use crate::lookup::LookupProvider;
use crate::text::push_str;

verus! {

/// The text of an optional target address.
pub open spec fn target_text(target: Option<IpAddress>) -> Option<Seq<char>> {
    match target {
        Some(a) => Some(ip_text(a)),
        None => None,
    }
}

/// The text of an optional API key.
pub open spec fn key_text(key: Option<String>) -> Option<Seq<char>> {
    match key {
        Some(k) => Some(k@),
        None => None,
    }
}

/// `prefix + x + suffix` when `x` is present, nothing otherwise.
pub open spec fn wrapped(prefix: Seq<char>, x: Option<Seq<char>>, suffix: Seq<char>) -> Seq<char> {
    match x {
        Some(v) => prefix + v + suffix,
        None => Seq::empty(),
    }
}

/// The request URL of provider `p` for an optional API key and an optional target address.
pub open spec fn endpoint_text(
    p: LookupProvider,
    key: Option<Seq<char>>,
    target: Option<IpAddress>,
) -> Seq<char> {
    let t = target_text(target);
    match p {
        LookupProvider::FreeIpApi => "https://freeipapi.com/api/json/"@ + wrapped(""@, t, ""@),
        LookupProvider::IfConfig => "http://ifconfig.co/json"@ + wrapped("?ip="@, t, ""@),
        LookupProvider::IpInfo => "https://ipinfo.io/"@ + wrapped(""@, t, "/"@) + "json"@ + wrapped("?token="@, key, ""@),
        LookupProvider::MyIp => "https://api.my-ip.io/v2/ip.json"@,
        LookupProvider::IpApiCom => "http://ip-api.com/json/"@ + wrapped(""@, t, ""@) + "?fields=66846719"@,
        LookupProvider::IpWhoIs => "https://ipwho.is/"@ + wrapped(""@, t, ""@),
        LookupProvider::IpApiCo => "https://ipapi.co/"@ + wrapped(""@, t, "/"@) + "json"@,
        LookupProvider::IpApiIo => "https://ip-api.io/json/"@ + wrapped(""@, t, ""@) + wrapped("?api_key="@, key, ""@),
        LookupProvider::IpBase => "https://api.ipbase.com/v2/info"@,
        LookupProvider::IpLocateIo => "https://iplocate.io/api/lookup"@ + wrapped("/"@, t, ""@) + "/json"@ + wrapped("?apikey="@, key, ""@),
        LookupProvider::IpLeak => "https://ipleak.net/json/"@ + wrapped(""@, t, ""@),
        LookupProvider::Mullvad => "https://am.i.mullvad.net/json"@,
        LookupProvider::AbstractApi => "https://ipgeolocation.abstractapi.com/v1/"@ + wrapped("?api_key="@, key, ""@) + wrapped("&ip_address="@, t, ""@),
        LookupProvider::IpGeolocation => "https://api.ipgeolocation.io/ipgeo"@ + wrapped("?apiKey="@, key, ""@) + wrapped("&ip="@, t, ""@),
        LookupProvider::IpData => "https://api.ipdata.co/"@ + wrapped(""@, t, ""@) + wrapped("?api-key="@, key, ""@),
        LookupProvider::Ip2Location => "https://api.ip2location.io/"@ + wrapped("?key="@, key, ""@) + wrapped("&ip="@, t, ""@),
        LookupProvider::MyIpCom => "https://api.myip.com"@,
        LookupProvider::Ipify => "https://api64.ipify.org/?format=json"@,
        LookupProvider::GetJsonIp => "https://ipv4.jsonip.com"@,
        LookupProvider::IpQuery => "https://api.ipquery.io/"@ + wrapped(""@, t, ""@) + "?format=json"@,
        LookupProvider::Mock(_, endpoint) => endpoint@,
    }
}

/// Whether provider `p` can look up an address other than the caller's own: those whose
/// endpoint takes a target address, and the test provider.
pub open spec fn supports_target(p: LookupProvider) -> bool {
    match p {
        LookupProvider::MyIp => false,
        LookupProvider::IpBase => false,
        LookupProvider::Mullvad => false,
        LookupProvider::MyIpCom => false,
        LookupProvider::Ipify => false,
        LookupProvider::GetJsonIp => false,
        _ => true,
    }
}

/// A provider whose request URL changes with the target address supports target lookups.
pub proof fn law_target_in_url_is_supported(
    p: LookupProvider,
    key: Option<Seq<char>>,
    target: IpAddress,
)
    requires
        endpoint_text(p, key, Some(target)) != endpoint_text(p, key, None),
    ensures
        supports_target(p),
{
}

/// Authentication attached to a request.
#[derive(Debug, Clone, PartialEq, Eq)]
pub enum RequestAuth {
    /// No authentication.
    Anonymous,
    /// An `Authorization: Bearer <token>` header.
    Bearer(String),
    /// A header with the given name and value.
    Header(String, String),
}

/// Whether `r` is the authentication that provider `p` attaches for an optional API key.
pub open spec fn auth_for(p: LookupProvider, key: Option<String>, r: RequestAuth) -> bool {
    match p {
        LookupProvider::FreeIpApi => match key {
            Some(k) => r == RequestAuth::Bearer(k),
            None => r == RequestAuth::Anonymous,
        },
        LookupProvider::IpApiCo => {
            &&& r is Header
            &&& r->Header_0@ == "User-Agent"@
            &&& r->Header_1@ == "nil"@
        },
        _ => r == RequestAuth::Anonymous,
    }
}

/// Appends `prefix`, the text of the target address and `suffix` when a target is given.
fn push_target(s: &mut String, prefix: &str, target: &Option<IpAddress>, suffix: &str)
    ensures
        final(s)@ == old(s)@ + wrapped(prefix@, target_text(*target), suffix@),
{
    match target {
        Some(a) => {
            push_str(s, prefix);
            let t = a.to_text();
            push_str(s, t.as_str());
            push_str(s, suffix);
        },
        None => {
            assert(old(s)@ + Seq::<char>::empty() =~= old(s)@);
        },
    }
}

/// Appends `prefix` and the API key when a key is given.
fn push_key(s: &mut String, prefix: &str, key: &Option<String>)
    ensures
        final(s)@ == old(s)@ + wrapped(prefix@, key_text(*key), ""@),
{
    proof {
        reveal_strlit("");
    }
    match key {
        Some(k) => {
            push_str(s, prefix);
            push_str(s, k.as_str());
            assert(final(s)@ =~= old(s)@ + (prefix@ + k@ + ""@));
        },
        None => {
            assert(old(s)@ + Seq::<char>::empty() =~= old(s)@);
        },
    }
}

/// What every lookup provider offers.
pub trait Provider {
    /// The identifier of this provider.
    spec fn identity(&self) -> LookupProvider;

    /// The request URL for an optional API key and an optional target address.
    fn get_endpoint(&self, key: &Option<String>, target: &Option<IpAddress>) -> (r: String)
        ensures
            r@ == endpoint_text(self.identity(), key_text(*key), *target),
    ;

    /// The authentication to attach to a request made with an optional API key.
    fn add_auth(&self, key: &Option<String>) -> (r: RequestAuth)
        ensures
            auth_for(self.identity(), *key, r),
    ;

    /// The identifier of this provider.
    fn get_type(&self) -> (r: LookupProvider)
        ensures
            r == self.identity(),
    ;

    /// Whether this provider can look up an address other than the caller's own.
    fn supports_target_lookup(&self) -> (r: bool)
        ensures
            r == supports_target(self.identity()),
    ;

    /// Whether this provider can look up many addresses in one request.
    fn supports_bulk_lookup(&self) -> (r: bool)
        ensures
            !r,
    ;
}

/// FreeIpApi lookup provider (<https://freeipapi.com>)
pub struct FreeIpApi;

impl Provider for FreeIpApi {
    open spec fn identity(&self) -> LookupProvider {
        LookupProvider::FreeIpApi
    }

    fn get_endpoint(&self, key: &Option<String>, target: &Option<IpAddress>) -> (r: String) {
        let mut s = String::from_str("https://freeipapi.com/api/json/");
        push_target(&mut s, "", target, "");
        proof {
            reveal_strlit("");
        }
        assert(s@ =~= endpoint_text(self.identity(), key_text(*key), *target));
        s
    }

    fn add_auth(&self, key: &Option<String>) -> (r: RequestAuth) {
        match key {
            Some(k) => RequestAuth::Bearer(k.clone()),
            None => RequestAuth::Anonymous,
        }
    }

    fn get_type(&self) -> (r: LookupProvider) {
        LookupProvider::FreeIpApi
    }

    fn supports_target_lookup(&self) -> (r: bool) {
        true
    }

    fn supports_bulk_lookup(&self) -> (r: bool) {
        false
    }
}

/// IfConfig lookup provider (<https://ifconfig.co>)
pub struct IfConfig;

impl Provider for IfConfig {
    open spec fn identity(&self) -> LookupProvider {
        LookupProvider::IfConfig
    }

    fn get_endpoint(&self, key: &Option<String>, target: &Option<IpAddress>) -> (r: String) {
        let mut s = String::from_str("http://ifconfig.co/json");
        push_target(&mut s, "?ip=", target, "");
        proof {
            reveal_strlit("");
        }
        assert(s@ =~= endpoint_text(self.identity(), key_text(*key), *target));
        s
    }

    fn add_auth(&self, key: &Option<String>) -> (r: RequestAuth) {
        RequestAuth::Anonymous
    }

    fn get_type(&self) -> (r: LookupProvider) {
        LookupProvider::IfConfig
    }

    fn supports_target_lookup(&self) -> (r: bool) {
        true
    }

    fn supports_bulk_lookup(&self) -> (r: bool) {
        false
    }
}

/// IpInfo lookup provider (<https://ipinfo.io>)
pub struct IpInfo;

impl Provider for IpInfo {
    open spec fn identity(&self) -> LookupProvider {
        LookupProvider::IpInfo
    }

    fn get_endpoint(&self, key: &Option<String>, target: &Option<IpAddress>) -> (r: String) {
        let mut s = String::from_str("https://ipinfo.io/");
        push_target(&mut s, "", target, "/");
        push_str(&mut s, "json");
        push_key(&mut s, "?token=", key);
        proof {
            reveal_strlit("");
        }
        assert(s@ =~= endpoint_text(self.identity(), key_text(*key), *target));
        s
    }

    fn add_auth(&self, key: &Option<String>) -> (r: RequestAuth) {
        RequestAuth::Anonymous
    }

    fn get_type(&self) -> (r: LookupProvider) {
        LookupProvider::IpInfo
    }

    fn supports_target_lookup(&self) -> (r: bool) {
        true
    }

    fn supports_bulk_lookup(&self) -> (r: bool) {
        false
    }
}

/// MyIp lookup provider (<https://my-ip.io>)
pub struct MyIp;

impl Provider for MyIp {
    open spec fn identity(&self) -> LookupProvider {
        LookupProvider::MyIp
    }

    fn get_endpoint(&self, key: &Option<String>, target: &Option<IpAddress>) -> (r: String) {
        let s = String::from_str("https://api.my-ip.io/v2/ip.json");
        proof {
            reveal_strlit("");
        }
        assert(s@ =~= endpoint_text(self.identity(), key_text(*key), *target));
        s
    }

    fn add_auth(&self, key: &Option<String>) -> (r: RequestAuth) {
        RequestAuth::Anonymous
    }

    fn get_type(&self) -> (r: LookupProvider) {
        LookupProvider::MyIp
    }

    fn supports_target_lookup(&self) -> (r: bool) {
        false
    }

    fn supports_bulk_lookup(&self) -> (r: bool) {
        false
    }
}

/// IpApiCom lookup provider (<https://ip-api.com>)
pub struct IpApiCom;

impl Provider for IpApiCom {
    open spec fn identity(&self) -> LookupProvider {
        LookupProvider::IpApiCom
    }

    fn get_endpoint(&self, key: &Option<String>, target: &Option<IpAddress>) -> (r: String) {
        let mut s = String::from_str("http://ip-api.com/json/");
        push_target(&mut s, "", target, "");
        push_str(&mut s, "?fields=66846719");
        proof {
            reveal_strlit("");
        }
        assert(s@ =~= endpoint_text(self.identity(), key_text(*key), *target));
        s
    }

    fn add_auth(&self, key: &Option<String>) -> (r: RequestAuth) {
        RequestAuth::Anonymous
    }

    fn get_type(&self) -> (r: LookupProvider) {
        LookupProvider::IpApiCom
    }

    fn supports_target_lookup(&self) -> (r: bool) {
        true
    }

    fn supports_bulk_lookup(&self) -> (r: bool) {
        false
    }
}

/// IpWhoIs lookup provider (<https://ipwhois.io>)
pub struct IpWhoIs;

impl Provider for IpWhoIs {
    open spec fn identity(&self) -> LookupProvider {
        LookupProvider::IpWhoIs
    }

    fn get_endpoint(&self, key: &Option<String>, target: &Option<IpAddress>) -> (r: String) {
        let mut s = String::from_str("https://ipwho.is/");
        push_target(&mut s, "", target, "");
        proof {
            reveal_strlit("");
        }
        assert(s@ =~= endpoint_text(self.identity(), key_text(*key), *target));
        s
    }

    fn add_auth(&self, key: &Option<String>) -> (r: RequestAuth) {
        RequestAuth::Anonymous
    }

    fn get_type(&self) -> (r: LookupProvider) {
        LookupProvider::IpWhoIs
    }

    fn supports_target_lookup(&self) -> (r: bool) {
        true
    }

    fn supports_bulk_lookup(&self) -> (r: bool) {
        false
    }
}

/// IpApiCo lookup provider (<https://ipapi.co>)
pub struct IpApiCo;

impl Provider for IpApiCo {
    open spec fn identity(&self) -> LookupProvider {
        LookupProvider::IpApiCo
    }

    fn get_endpoint(&self, key: &Option<String>, target: &Option<IpAddress>) -> (r: String) {
        let mut s = String::from_str("https://ipapi.co/");
        push_target(&mut s, "", target, "/");
        push_str(&mut s, "json");
        proof {
            reveal_strlit("");
        }
        assert(s@ =~= endpoint_text(self.identity(), key_text(*key), *target));
        s
    }

    fn add_auth(&self, key: &Option<String>) -> (r: RequestAuth) {
        RequestAuth::Header(String::from_str("User-Agent"), String::from_str("nil"))
    }

    fn get_type(&self) -> (r: LookupProvider) {
        LookupProvider::IpApiCo
    }

    fn supports_target_lookup(&self) -> (r: bool) {
        true
    }

    fn supports_bulk_lookup(&self) -> (r: bool) {
        false
    }
}

/// IpApiIo lookup provider (<https://ip-api.io>)
pub struct IpApiIo;

impl Provider for IpApiIo {
    open spec fn identity(&self) -> LookupProvider {
        LookupProvider::IpApiIo
    }

    fn get_endpoint(&self, key: &Option<String>, target: &Option<IpAddress>) -> (r: String) {
        let mut s = String::from_str("https://ip-api.io/json/");
        push_target(&mut s, "", target, "");
        push_key(&mut s, "?api_key=", key);
        proof {
            reveal_strlit("");
        }
        assert(s@ =~= endpoint_text(self.identity(), key_text(*key), *target));
        s
    }

    fn add_auth(&self, key: &Option<String>) -> (r: RequestAuth) {
        RequestAuth::Anonymous
    }

    fn get_type(&self) -> (r: LookupProvider) {
        LookupProvider::IpApiIo
    }

    fn supports_target_lookup(&self) -> (r: bool) {
        true
    }

    fn supports_bulk_lookup(&self) -> (r: bool) {
        false
    }
}

/// IpBase lookup provider (<https://ipbase.com>)
pub struct IpBase;

impl Provider for IpBase {
    open spec fn identity(&self) -> LookupProvider {
        LookupProvider::IpBase
    }

    fn get_endpoint(&self, key: &Option<String>, target: &Option<IpAddress>) -> (r: String) {
        let s = String::from_str("https://api.ipbase.com/v2/info");
        proof {
            reveal_strlit("");
        }
        assert(s@ =~= endpoint_text(self.identity(), key_text(*key), *target));
        s
    }

    fn add_auth(&self, key: &Option<String>) -> (r: RequestAuth) {
        RequestAuth::Anonymous
    }

    fn get_type(&self) -> (r: LookupProvider) {
        LookupProvider::IpBase
    }

    fn supports_target_lookup(&self) -> (r: bool) {
        false
    }

    fn supports_bulk_lookup(&self) -> (r: bool) {
        false
    }
}

/// IpLocateIo lookup provider (<https://iplocate.io>)
pub struct IpLocateIo;

impl Provider for IpLocateIo {
    open spec fn identity(&self) -> LookupProvider {
        LookupProvider::IpLocateIo
    }

    fn get_endpoint(&self, key: &Option<String>, target: &Option<IpAddress>) -> (r: String) {
        let mut s = String::from_str("https://iplocate.io/api/lookup");
        push_target(&mut s, "/", target, "");
        push_str(&mut s, "/json");
        push_key(&mut s, "?apikey=", key);
        proof {
            reveal_strlit("");
        }
        assert(s@ =~= endpoint_text(self.identity(), key_text(*key), *target));
        s
    }

    fn add_auth(&self, key: &Option<String>) -> (r: RequestAuth) {
        RequestAuth::Anonymous
    }

    fn get_type(&self) -> (r: LookupProvider) {
        LookupProvider::IpLocateIo
    }

    fn supports_target_lookup(&self) -> (r: bool) {
        true
    }

    fn supports_bulk_lookup(&self) -> (r: bool) {
        false
    }
}

/// IpLeak lookup provider (<https://ipleak.net>)
pub struct IpLeak;

impl Provider for IpLeak {
    open spec fn identity(&self) -> LookupProvider {
        LookupProvider::IpLeak
    }

    fn get_endpoint(&self, key: &Option<String>, target: &Option<IpAddress>) -> (r: String) {
        let mut s = String::from_str("https://ipleak.net/json/");
        push_target(&mut s, "", target, "");
        proof {
            reveal_strlit("");
        }
        assert(s@ =~= endpoint_text(self.identity(), key_text(*key), *target));
        s
    }

    fn add_auth(&self, key: &Option<String>) -> (r: RequestAuth) {
        RequestAuth::Anonymous
    }

    fn get_type(&self) -> (r: LookupProvider) {
        LookupProvider::IpLeak
    }

    fn supports_target_lookup(&self) -> (r: bool) {
        true
    }

    fn supports_bulk_lookup(&self) -> (r: bool) {
        false
    }
}

/// Mullvad lookup provider (<https://mullvad.net>)
pub struct Mullvad;

impl Provider for Mullvad {
    open spec fn identity(&self) -> LookupProvider {
        LookupProvider::Mullvad
    }

    fn get_endpoint(&self, key: &Option<String>, target: &Option<IpAddress>) -> (r: String) {
        let s = String::from_str("https://am.i.mullvad.net/json");
        proof {
            reveal_strlit("");
        }
        assert(s@ =~= endpoint_text(self.identity(), key_text(*key), *target));
        s
    }

    fn add_auth(&self, key: &Option<String>) -> (r: RequestAuth) {
        RequestAuth::Anonymous
    }

    fn get_type(&self) -> (r: LookupProvider) {
        LookupProvider::Mullvad
    }

    fn supports_target_lookup(&self) -> (r: bool) {
        false
    }

    fn supports_bulk_lookup(&self) -> (r: bool) {
        false
    }
}

/// AbstractApi lookup provider (<https://abstractapi.com>)
pub struct AbstractApi;

impl Provider for AbstractApi {
    open spec fn identity(&self) -> LookupProvider {
        LookupProvider::AbstractApi
    }

    fn get_endpoint(&self, key: &Option<String>, target: &Option<IpAddress>) -> (r: String) {
        let mut s = String::from_str("https://ipgeolocation.abstractapi.com/v1/");
        push_key(&mut s, "?api_key=", key);
        push_target(&mut s, "&ip_address=", target, "");
        proof {
            reveal_strlit("");
        }
        assert(s@ =~= endpoint_text(self.identity(), key_text(*key), *target));
        s
    }

    fn add_auth(&self, key: &Option<String>) -> (r: RequestAuth) {
        RequestAuth::Anonymous
    }

    fn get_type(&self) -> (r: LookupProvider) {
        LookupProvider::AbstractApi
    }

    fn supports_target_lookup(&self) -> (r: bool) {
        true
    }

    fn supports_bulk_lookup(&self) -> (r: bool) {
        false
    }
}

/// IpGeolocation lookup provider (<https://ipgeolocation.io>)
pub struct IpGeolocation;

impl Provider for IpGeolocation {
    open spec fn identity(&self) -> LookupProvider {
        LookupProvider::IpGeolocation
    }

    fn get_endpoint(&self, key: &Option<String>, target: &Option<IpAddress>) -> (r: String) {
        let mut s = String::from_str("https://api.ipgeolocation.io/ipgeo");
        push_key(&mut s, "?apiKey=", key);
        push_target(&mut s, "&ip=", target, "");
        proof {
            reveal_strlit("");
        }
        assert(s@ =~= endpoint_text(self.identity(), key_text(*key), *target));
        s
    }

    fn add_auth(&self, key: &Option<String>) -> (r: RequestAuth) {
        RequestAuth::Anonymous
    }

    fn get_type(&self) -> (r: LookupProvider) {
        LookupProvider::IpGeolocation
    }

    fn supports_target_lookup(&self) -> (r: bool) {
        true
    }

    fn supports_bulk_lookup(&self) -> (r: bool) {
        false
    }
}

/// IpData lookup provider (<https://ipdata.co>)
pub struct IpData;

impl Provider for IpData {
    open spec fn identity(&self) -> LookupProvider {
        LookupProvider::IpData
    }

    fn get_endpoint(&self, key: &Option<String>, target: &Option<IpAddress>) -> (r: String) {
        let mut s = String::from_str("https://api.ipdata.co/");
        push_target(&mut s, "", target, "");
        push_key(&mut s, "?api-key=", key);
        proof {
            reveal_strlit("");
        }
        assert(s@ =~= endpoint_text(self.identity(), key_text(*key), *target));
        s
    }

    fn add_auth(&self, key: &Option<String>) -> (r: RequestAuth) {
        RequestAuth::Anonymous
    }

    fn get_type(&self) -> (r: LookupProvider) {
        LookupProvider::IpData
    }

    fn supports_target_lookup(&self) -> (r: bool) {
        true
    }

    fn supports_bulk_lookup(&self) -> (r: bool) {
        false
    }
}

/// Ip2Location lookup provider (<https://www.ip2location.io>)
pub struct Ip2Location;

impl Provider for Ip2Location {
    open spec fn identity(&self) -> LookupProvider {
        LookupProvider::Ip2Location
    }

    fn get_endpoint(&self, key: &Option<String>, target: &Option<IpAddress>) -> (r: String) {
        let mut s = String::from_str("https://api.ip2location.io/");
        push_key(&mut s, "?key=", key);
        push_target(&mut s, "&ip=", target, "");
        proof {
            reveal_strlit("");
        }
        assert(s@ =~= endpoint_text(self.identity(), key_text(*key), *target));
        s
    }

    fn add_auth(&self, key: &Option<String>) -> (r: RequestAuth) {
        RequestAuth::Anonymous
    }

    fn get_type(&self) -> (r: LookupProvider) {
        LookupProvider::Ip2Location
    }

    fn supports_target_lookup(&self) -> (r: bool) {
        true
    }

    fn supports_bulk_lookup(&self) -> (r: bool) {
        false
    }
}

/// MyIpCom lookup provider (<https://www.myip.com>)
pub struct MyIpCom;

impl Provider for MyIpCom {
    open spec fn identity(&self) -> LookupProvider {
        LookupProvider::MyIpCom
    }

    fn get_endpoint(&self, key: &Option<String>, target: &Option<IpAddress>) -> (r: String) {
        let s = String::from_str("https://api.myip.com");
        proof {
            reveal_strlit("");
        }
        assert(s@ =~= endpoint_text(self.identity(), key_text(*key), *target));
        s
    }

    fn add_auth(&self, key: &Option<String>) -> (r: RequestAuth) {
        RequestAuth::Anonymous
    }

    fn get_type(&self) -> (r: LookupProvider) {
        LookupProvider::MyIpCom
    }

    fn supports_target_lookup(&self) -> (r: bool) {
        false
    }

    fn supports_bulk_lookup(&self) -> (r: bool) {
        false
    }
}

/// Ipify lookup provider (<https://www.ipify.org>)
pub struct Ipify;

impl Provider for Ipify {
    open spec fn identity(&self) -> LookupProvider {
        LookupProvider::Ipify
    }

    fn get_endpoint(&self, key: &Option<String>, target: &Option<IpAddress>) -> (r: String) {
        let s = String::from_str("https://api64.ipify.org/?format=json");
        proof {
            reveal_strlit("");
        }
        assert(s@ =~= endpoint_text(self.identity(), key_text(*key), *target));
        s
    }

    fn add_auth(&self, key: &Option<String>) -> (r: RequestAuth) {
        RequestAuth::Anonymous
    }

    fn get_type(&self) -> (r: LookupProvider) {
        LookupProvider::Ipify
    }

    fn supports_target_lookup(&self) -> (r: bool) {
        false
    }

    fn supports_bulk_lookup(&self) -> (r: bool) {
        false
    }
}

/// GetJsonIp lookup provider (<https://getjsonip.com>)
pub struct GetJsonIp;

impl Provider for GetJsonIp {
    open spec fn identity(&self) -> LookupProvider {
        LookupProvider::GetJsonIp
    }

    fn get_endpoint(&self, key: &Option<String>, target: &Option<IpAddress>) -> (r: String) {
        let s = String::from_str("https://ipv4.jsonip.com");
        proof {
            reveal_strlit("");
        }
        assert(s@ =~= endpoint_text(self.identity(), key_text(*key), *target));
        s
    }

    fn add_auth(&self, key: &Option<String>) -> (r: RequestAuth) {
        RequestAuth::Anonymous
    }

    fn get_type(&self) -> (r: LookupProvider) {
        LookupProvider::GetJsonIp
    }

    fn supports_target_lookup(&self) -> (r: bool) {
        false
    }

    fn supports_bulk_lookup(&self) -> (r: bool) {
        false
    }
}

/// IpQuery lookup provider (<https://ipquery.io>)
pub struct IpQuery;

impl Provider for IpQuery {
    open spec fn identity(&self) -> LookupProvider {
        LookupProvider::IpQuery
    }

    fn get_endpoint(&self, key: &Option<String>, target: &Option<IpAddress>) -> (r: String) {
        let mut s = String::from_str("https://api.ipquery.io/");
        push_target(&mut s, "", target, "");
        push_str(&mut s, "?format=json");
        proof {
            reveal_strlit("");
        }
        assert(s@ =~= endpoint_text(self.identity(), key_text(*key), *target));
        s
    }

    fn add_auth(&self, key: &Option<String>) -> (r: RequestAuth) {
        RequestAuth::Anonymous
    }

    fn get_type(&self) -> (r: LookupProvider) {
        LookupProvider::IpQuery
    }

    fn supports_target_lookup(&self) -> (r: bool) {
        true
    }

    fn supports_bulk_lookup(&self) -> (r: bool) {
        false
    }
}

/// Test provider: answers with a fixed address, from a configurable endpoint.
pub struct Mock {
    /// IP address to answer with
    pub ip: String,
    /// Endpoint to contact
    pub endpoint: String,
}

impl Provider for Mock {
    open spec fn identity(&self) -> LookupProvider {
        LookupProvider::Mock(self.ip, self.endpoint)
    }

    fn get_endpoint(&self, key: &Option<String>, target: &Option<IpAddress>) -> (r: String) {
        self.endpoint.clone()
    }

    fn add_auth(&self, key: &Option<String>) -> (r: RequestAuth) {
        RequestAuth::Anonymous
    }

    fn get_type(&self) -> (r: LookupProvider) {
        LookupProvider::Mock(self.ip.clone(), self.endpoint.clone())
    }

    fn supports_target_lookup(&self) -> (r: bool) {
        true
    }

    fn supports_bulk_lookup(&self) -> (r: bool) {
        false
    }
}

impl LookupProvider {
    /// The request URL of this provider for an optional API key and an optional target address.
    pub fn endpoint(&self, key: &Option<String>, target: &Option<IpAddress>) -> (r: String)
        ensures
            r@ == endpoint_text(*self, key_text(*key), *target),
    {
        match self {
            LookupProvider::FreeIpApi => FreeIpApi.get_endpoint(key, target),
            LookupProvider::IfConfig => IfConfig.get_endpoint(key, target),
            LookupProvider::IpInfo => IpInfo.get_endpoint(key, target),
            LookupProvider::MyIp => MyIp.get_endpoint(key, target),
            LookupProvider::IpApiCom => IpApiCom.get_endpoint(key, target),
            LookupProvider::IpWhoIs => IpWhoIs.get_endpoint(key, target),
            LookupProvider::IpApiCo => IpApiCo.get_endpoint(key, target),
            LookupProvider::IpApiIo => IpApiIo.get_endpoint(key, target),
            LookupProvider::IpBase => IpBase.get_endpoint(key, target),
            LookupProvider::IpLocateIo => IpLocateIo.get_endpoint(key, target),
            LookupProvider::IpLeak => IpLeak.get_endpoint(key, target),
            LookupProvider::Mullvad => Mullvad.get_endpoint(key, target),
            LookupProvider::AbstractApi => AbstractApi.get_endpoint(key, target),
            LookupProvider::IpGeolocation => IpGeolocation.get_endpoint(key, target),
            LookupProvider::IpData => IpData.get_endpoint(key, target),
            LookupProvider::Ip2Location => Ip2Location.get_endpoint(key, target),
            LookupProvider::MyIpCom => MyIpCom.get_endpoint(key, target),
            LookupProvider::Ipify => Ipify.get_endpoint(key, target),
            LookupProvider::GetJsonIp => GetJsonIp.get_endpoint(key, target),
            LookupProvider::IpQuery => IpQuery.get_endpoint(key, target),
            LookupProvider::Mock(ip, endpoint) => Mock { ip: ip.clone(), endpoint: endpoint.clone() }.get_endpoint(key, target),
        }
    }

    /// The authentication this provider attaches for an optional API key.
    pub fn request_auth(&self, key: &Option<String>) -> (r: RequestAuth)
        ensures
            auth_for(*self, *key, r),
    {
        match self {
            LookupProvider::FreeIpApi => FreeIpApi.add_auth(key),
            LookupProvider::IfConfig => IfConfig.add_auth(key),
            LookupProvider::IpInfo => IpInfo.add_auth(key),
            LookupProvider::MyIp => MyIp.add_auth(key),
            LookupProvider::IpApiCom => IpApiCom.add_auth(key),
            LookupProvider::IpWhoIs => IpWhoIs.add_auth(key),
            LookupProvider::IpApiCo => IpApiCo.add_auth(key),
            LookupProvider::IpApiIo => IpApiIo.add_auth(key),
            LookupProvider::IpBase => IpBase.add_auth(key),
            LookupProvider::IpLocateIo => IpLocateIo.add_auth(key),
            LookupProvider::IpLeak => IpLeak.add_auth(key),
            LookupProvider::Mullvad => Mullvad.add_auth(key),
            LookupProvider::AbstractApi => AbstractApi.add_auth(key),
            LookupProvider::IpGeolocation => IpGeolocation.add_auth(key),
            LookupProvider::IpData => IpData.add_auth(key),
            LookupProvider::Ip2Location => Ip2Location.add_auth(key),
            LookupProvider::MyIpCom => MyIpCom.add_auth(key),
            LookupProvider::Ipify => Ipify.add_auth(key),
            LookupProvider::GetJsonIp => GetJsonIp.add_auth(key),
            LookupProvider::IpQuery => IpQuery.add_auth(key),
            LookupProvider::Mock(ip, endpoint) => Mock { ip: ip.clone(), endpoint: endpoint.clone() }.add_auth(key),
        }
    }

    /// Whether this provider can look up an address other than the caller's own.
    pub fn supports_target_lookup(&self) -> (r: bool)
        ensures
            r == supports_target(*self),
    {
        match self {
            LookupProvider::FreeIpApi => FreeIpApi.supports_target_lookup(),
            LookupProvider::IfConfig => IfConfig.supports_target_lookup(),
            LookupProvider::IpInfo => IpInfo.supports_target_lookup(),
            LookupProvider::MyIp => MyIp.supports_target_lookup(),
            LookupProvider::IpApiCom => IpApiCom.supports_target_lookup(),
            LookupProvider::IpWhoIs => IpWhoIs.supports_target_lookup(),
            LookupProvider::IpApiCo => IpApiCo.supports_target_lookup(),
            LookupProvider::IpApiIo => IpApiIo.supports_target_lookup(),
            LookupProvider::IpBase => IpBase.supports_target_lookup(),
            LookupProvider::IpLocateIo => IpLocateIo.supports_target_lookup(),
            LookupProvider::IpLeak => IpLeak.supports_target_lookup(),
            LookupProvider::Mullvad => Mullvad.supports_target_lookup(),
            LookupProvider::AbstractApi => AbstractApi.supports_target_lookup(),
            LookupProvider::IpGeolocation => IpGeolocation.supports_target_lookup(),
            LookupProvider::IpData => IpData.supports_target_lookup(),
            LookupProvider::Ip2Location => Ip2Location.supports_target_lookup(),
            LookupProvider::MyIpCom => MyIpCom.supports_target_lookup(),
            LookupProvider::Ipify => Ipify.supports_target_lookup(),
            LookupProvider::GetJsonIp => GetJsonIp.supports_target_lookup(),
            LookupProvider::IpQuery => IpQuery.supports_target_lookup(),
            LookupProvider::Mock(ip, endpoint) => Mock { ip: ip.clone(), endpoint: endpoint.clone() }.supports_target_lookup(),
        }
    }
}

} // verus!
