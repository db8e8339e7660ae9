//! Lookup providers: their identifiers, credentials, and the registry that parses them.

use vstd::prelude::*;
use vstd::string::*;
use crate::error::LookupError;
use crate::ip::IpAddress;
use crate::lookup::providers::{auth_for, endpoint_text, key_text, supports_target, RequestAuth};
use crate::text::{decimal, push_decimal, push_str, split_whitespace, views, words};

pub mod providers;

verus! {

/// Available lookup service providers.
#[derive(Debug, Clone, PartialEq, Eq)]
pub enum LookupProvider {
    /// FreeIpApi provider (<https://freeipapi.com>)
    FreeIpApi,
    /// IfConfig provider (<https://ifconfig.co>)
    IfConfig,
    /// IpInfo provider (<https://ipinfo.io>)
    IpInfo,
    /// MyIp provider (<https://my-ip.io>)
    MyIp,
    /// IpApiCom provider (<https://ip-api.com>)
    IpApiCom,
    /// IpWhoIs provider (<https://ipwhois.io>)
    IpWhoIs,
    /// IpApiCo provider (<https://ipapi.co>)
    IpApiCo,
    /// IpApiIo provider (<https://ip-api.io>)
    IpApiIo,
    /// IpBase provider (<https://ipbase.com>)
    IpBase,
    /// IpLocateIo provider (<https://iplocate.io>)
    IpLocateIo,
    /// IpLeak provider (<https://ipleak.net>)
    IpLeak,
    /// Mullvad provider (<https://mullvad.net>)
    Mullvad,
    /// Abstract provider (<https://abstractapi.com>)
    AbstractApi,
    /// IpGeolocation provider (<https://ipgeolocation.io>)
    IpGeolocation,
    /// IpData provider (<https://ipdata.co>)
    IpData,
    /// Ip2Location provider (<https://www.ip2location.io>)
    Ip2Location,
    /// MyIpCom provider (<https://www.myip.com>)
    MyIpCom,
    /// Ipify provider (<https://www.ipify.org>)
    Ipify,
    /// GetJsonIp provider (<https://getjsonip.com>)
    GetJsonIp,
    /// IpQuery provider (<https://ipquery.io>)
    IpQuery,
    /// Test provider: always answers with the address in the first field, from the endpoint in the second.
    Mock(String, String),
}

/// The provider that a registry name stands for (names are lower case).
pub open spec fn provider_named(w: Seq<char>) -> Option<LookupProvider> {
    if w == "freeipapi"@ {
        Some(LookupProvider::FreeIpApi)
    } else if w == "ifconfig"@ {
        Some(LookupProvider::IfConfig)
    } else if w == "ipinfo"@ {
        Some(LookupProvider::IpInfo)
    } else if w == "myip"@ {
        Some(LookupProvider::MyIp)
    } else if w == "ipapicom"@ {
        Some(LookupProvider::IpApiCom)
    } else if w == "ipwhois"@ {
        Some(LookupProvider::IpWhoIs)
    } else if w == "ipapico"@ {
        Some(LookupProvider::IpApiCo)
    } else if w == "ipapiio"@ {
        Some(LookupProvider::IpApiIo)
    } else if w == "ipbase"@ {
        Some(LookupProvider::IpBase)
    } else if w == "iplocateio"@ {
        Some(LookupProvider::IpLocateIo)
    } else if w == "ipleak"@ {
        Some(LookupProvider::IpLeak)
    } else if w == "mullvad"@ {
        Some(LookupProvider::Mullvad)
    } else if w == "abstract"@ {
        Some(LookupProvider::AbstractApi)
    } else if w == "ipgeolocation"@ {
        Some(LookupProvider::IpGeolocation)
    } else if w == "ipdata"@ {
        Some(LookupProvider::IpData)
    } else if w == "ip2location"@ {
        Some(LookupProvider::Ip2Location)
    } else if w == "myipcom"@ {
        Some(LookupProvider::MyIpCom)
    } else if w == "ipify"@ {
        Some(LookupProvider::Ipify)
    } else if w == "getjsonip"@ {
        Some(LookupProvider::GetJsonIp)
    } else if w == "ipquery"@ {
        Some(LookupProvider::IpQuery)
    } else {
        None
    }
}

/// A name for what `str::to_lowercase` returns: the Unicode lower-case mapping of the text.
pub uninterp spec fn lower_of(s: Seq<char>) -> Seq<char>;

/// Relies on `str::to_lowercase`: the result depends on the characters alone.
#[verifier::external_body]
fn lowercase(s: &str) -> (r: String)
    ensures
        r@ == lower_of(s@),
{
    s.to_lowercase()
}

/// The words of a registry entry: the lower-cased text split at white space.
pub open spec fn entry_words(s: Seq<char>) -> Seq<Seq<char>> {
    words(lower_of(s))
}

/// Whether `e` is the error "No provider given".
pub open spec fn is_no_provider_error(e: LookupError) -> bool {
    &&& e is GenericError
    &&& e->GenericError_0@ == "No provider given"@
}

/// Whether `e` is the error "Provider not found: <name>".
pub open spec fn is_unknown_provider_error(e: LookupError, name: Seq<char>) -> bool {
    &&& e is GenericError
    &&& e->GenericError_0@ == "Provider not found: "@ + name
}

/// Whether `r` is the outcome of parsing the registry entry `s` into a provider.
pub open spec fn parses_to(s: Seq<char>, r: Result<LookupProvider, LookupError>) -> bool {
    let ws = entry_words(s);
    if ws.len() == 0 {
        r is Err && is_no_provider_error(r->Err_0)
    } else {
        match provider_named(ws[0]) {
            Some(p) => r == Ok::<LookupProvider, LookupError>(p),
            None => r is Err && is_unknown_provider_error(r->Err_0, ws[0]),
        }
    }
}

/// Whether `w` holds exactly the characters of the literal `lit`.
fn is_word(w: &String, lit: &str) -> (r: bool)
    ensures
        r == (w@ == lit@),
{
    let t = String::from_str(lit);
    *w == t
}

/// The provider for a registry name, if the name is known.
pub fn provider_for_name(w: &String) -> (r: Option<LookupProvider>)
    ensures
        r == provider_named(w@),
{
    if is_word(w, "freeipapi") {
        Some(LookupProvider::FreeIpApi)
    } else if is_word(w, "ifconfig") {
        Some(LookupProvider::IfConfig)
    } else if is_word(w, "ipinfo") {
        Some(LookupProvider::IpInfo)
    } else if is_word(w, "myip") {
        Some(LookupProvider::MyIp)
    } else if is_word(w, "ipapicom") {
        Some(LookupProvider::IpApiCom)
    } else if is_word(w, "ipwhois") {
        Some(LookupProvider::IpWhoIs)
    } else if is_word(w, "ipapico") {
        Some(LookupProvider::IpApiCo)
    } else if is_word(w, "ipapiio") {
        Some(LookupProvider::IpApiIo)
    } else if is_word(w, "ipbase") {
        Some(LookupProvider::IpBase)
    } else if is_word(w, "iplocateio") {
        Some(LookupProvider::IpLocateIo)
    } else if is_word(w, "ipleak") {
        Some(LookupProvider::IpLeak)
    } else if is_word(w, "mullvad") {
        Some(LookupProvider::Mullvad)
    } else if is_word(w, "abstract") {
        Some(LookupProvider::AbstractApi)
    } else if is_word(w, "ipgeolocation") {
        Some(LookupProvider::IpGeolocation)
    } else if is_word(w, "ipdata") {
        Some(LookupProvider::IpData)
    } else if is_word(w, "ip2location") {
        Some(LookupProvider::Ip2Location)
    } else if is_word(w, "myipcom") {
        Some(LookupProvider::MyIpCom)
    } else if is_word(w, "ipify") {
        Some(LookupProvider::Ipify)
    } else if is_word(w, "getjsonip") {
        Some(LookupProvider::GetJsonIp)
    } else if is_word(w, "ipquery") {
        Some(LookupProvider::IpQuery)
    } else {
        None
    }
}

/// The provider named by the first word, or the registry's error for it.
fn provider_from_words(ws: &Vec<String>) -> (r: Result<LookupProvider, LookupError>)
    ensures
        ws.len() == 0 ==> r is Err && is_no_provider_error(r->Err_0),
        ws.len() > 0 ==> match provider_named(ws@[0]@) {
            Some(p) => r == Ok::<LookupProvider, LookupError>(p),
            None => r is Err && is_unknown_provider_error(r->Err_0, ws@[0]@),
        },
{
    if ws.len() == 0 {
        return Err(LookupError::GenericError(String::from_str("No provider given")));
    }
    match provider_for_name(&ws[0]) {
        Some(p) => Ok(p),
        None => {
            let mut msg = String::from_str("Provider not found: ");
            push_str(&mut msg, ws[0].as_str());
            Err(LookupError::GenericError(msg))
        },
    }
}

/// Credentials handed to a provider at lookup time.
#[derive(Debug, Clone, PartialEq, Eq)]
pub struct Parameters {
    /// API key for the lookup provider
    pub api_key: String,
}

impl Parameters {
    /// Creates new parameters holding an API key.
    pub fn new(api_key: String) -> (r: Parameters)
        ensures
            r.api_key == api_key,
    {
        Parameters { api_key }
    }

    /// A copy of these parameters.
    pub fn duplicate(&self) -> (r: Parameters)
        ensures
            r == *self,
    {
        Parameters { api_key: self.api_key.clone() }
    }
}

/// Whether `r` is the outcome of parsing the registry entry `s` into a provider and, from an
/// optional second word, an API key.
pub open spec fn parses_with_params_to(
    s: Seq<char>,
    r: Result<(LookupProvider, Option<Parameters>), LookupError>,
) -> bool {
    let ws = entry_words(s);
    if ws.len() == 0 {
        r is Err && is_no_provider_error(r->Err_0)
    } else {
        match provider_named(ws[0]) {
            Some(p) => {
                &&& r is Ok
                &&& r->Ok_0.0 == p
                &&& if ws.len() > 1 {
                    r->Ok_0.1 is Some && r->Ok_0.1->Some_0.api_key@ == ws[1]
                } else {
                    r->Ok_0.1 is None
                }
            },
            None => r is Err && is_unknown_provider_error(r->Err_0, ws[0]),
        }
    }
}

impl LookupProvider {
    /// A copy of this provider identifier.
    pub fn duplicate(&self) -> (r: LookupProvider)
        ensures
            r == *self,
    {
        match self {
            LookupProvider::FreeIpApi => LookupProvider::FreeIpApi,
            LookupProvider::IfConfig => LookupProvider::IfConfig,
            LookupProvider::IpInfo => LookupProvider::IpInfo,
            LookupProvider::MyIp => LookupProvider::MyIp,
            LookupProvider::IpApiCom => LookupProvider::IpApiCom,
            LookupProvider::IpWhoIs => LookupProvider::IpWhoIs,
            LookupProvider::IpApiCo => LookupProvider::IpApiCo,
            LookupProvider::IpApiIo => LookupProvider::IpApiIo,
            LookupProvider::IpBase => LookupProvider::IpBase,
            LookupProvider::IpLocateIo => LookupProvider::IpLocateIo,
            LookupProvider::IpLeak => LookupProvider::IpLeak,
            LookupProvider::Mullvad => LookupProvider::Mullvad,
            LookupProvider::AbstractApi => LookupProvider::AbstractApi,
            LookupProvider::IpGeolocation => LookupProvider::IpGeolocation,
            LookupProvider::IpData => LookupProvider::IpData,
            LookupProvider::Ip2Location => LookupProvider::Ip2Location,
            LookupProvider::MyIpCom => LookupProvider::MyIpCom,
            LookupProvider::Ipify => LookupProvider::Ipify,
            LookupProvider::GetJsonIp => LookupProvider::GetJsonIp,
            LookupProvider::IpQuery => LookupProvider::IpQuery,
            LookupProvider::Mock(ip, endpoint) => LookupProvider::Mock(ip.clone(), endpoint.clone()),
        }
    }

    /// Parses a registry entry of the form `"<provider> <api_key>"` or `"<provider>"`: the
    /// lower-cased text is split at white space, the first word names the provider and a
    /// second word, if any, becomes the API key.
    pub fn from_str_with_params(s: &str) -> (r: Result<(LookupProvider, Option<Parameters>), LookupError>)
        ensures
            parses_with_params_to(s@, r),
    {
        let lower = lowercase(s);
        let ws = split_whitespace(lower.as_str());
        proof {
            if ws.len() > 0 {
                assert(views(ws@)[0] == ws@[0]@);
            }
            if ws.len() > 1 {
                assert(views(ws@)[1] == ws@[1]@);
            }
        }
        let provider = match provider_from_words(&ws) {
            Ok(p) => p,
            Err(e) => return Err(e),
        };
        let key = if ws.len() > 1 {
            Some(Parameters::new(ws[1].clone()))
        } else {
            None
        };
        Ok((provider, key))
    }

    /// Parses a registry entry such as `"ipinfo"`: the first word of the lower-cased text names
    /// the provider.
    pub fn parse_name(s: &str) -> (r: Result<LookupProvider, LookupError>)
        ensures
            parses_to(s@, r),
    {
        let lower = lowercase(s);
        let ws = split_whitespace(lower.as_str());
        proof {
            if ws.len() > 0 {
                assert(views(ws@)[0] == ws@[0]@);
            }
        }
        provider_from_words(&ws)
    }
}

/// The API key of optional parameters.
pub open spec fn api_key_of(parameters: Option<Parameters>) -> Option<String> {
    match parameters {
        Some(p) => Some(p.api_key),
        None => None,
    }
}

/// One request to a provider: where to send it and how to authenticate.
#[derive(Debug, Clone, PartialEq, Eq)]
pub struct LookupRequest {
    /// The URL to `GET`.
    pub url: String,
    /// The authentication to attach.
    pub auth: RequestAuth,
}

/// A lookup service: one provider and the credentials to use with it.
///
/// A lookup is made in three steps: [`LookupService::request`] says what to send (or refuses a
/// target the provider cannot look up, before anything is sent), the caller sends it, and
/// [`handle_response`] maps the reply's status; the body is then decoded for the provider.
pub struct LookupService {
    provider: LookupProvider,
    parameters: Option<Parameters>,
}

impl View for LookupService {
    type V = (LookupProvider, Option<Parameters>);

    closed spec fn view(&self) -> (LookupProvider, Option<Parameters>) {
        (self.provider, self.parameters)
    }
}

/// Whether `r` is the request that `provider` with `parameters` makes for `target`, or its
/// refusal of a target it cannot look up.
pub open spec fn plans(
    provider: LookupProvider,
    parameters: Option<Parameters>,
    target: Option<IpAddress>,
    r: Result<LookupRequest, LookupError>,
) -> bool {
    if target is Some && !supports_target(provider) {
        r == Err::<LookupRequest, LookupError>(LookupError::TargetNotSupported)
    } else {
        let key = api_key_of(parameters);
        &&& r is Ok
        &&& r->Ok_0.url@ == endpoint_text(provider, key_text(key), target)
        &&& auth_for(provider, key, r->Ok_0.auth)
    }
}

impl LookupService {
    /// Creates a lookup service for `provider` with optional credentials.
    pub fn new(provider: LookupProvider, parameters: Option<Parameters>) -> (r: LookupService)
        ensures
            r@ == (provider, parameters),
    {
        LookupService { provider, parameters }
    }

    /// Changes the provider; the credentials stay.
    pub fn set_provider(&mut self, provider: LookupProvider)
        ensures
            final(self)@ == (provider, old(self)@.1),
    {
        self.provider = provider;
    }

    /// Sets the credentials; the provider stays.
    pub fn set_parameters(&mut self, parameters: Parameters)
        ensures
            final(self)@ == (old(self)@.0, Some(parameters)),
    {
        self.parameters = Some(parameters);
    }

    /// The identifier of the current provider.
    pub fn get_provider_type(&self) -> (r: LookupProvider)
        ensures
            r == self@.0,
    {
        self.provider.duplicate()
    }

    /// The request to send for a lookup of `target` (`None`: the caller's own address).
    ///
    /// Fails with [`LookupError::TargetNotSupported`], before any request exists, when a target
    /// is given and the provider only reports the caller's own address.
    pub fn request(&self, target: &Option<IpAddress>) -> (r: Result<LookupRequest, LookupError>)
        ensures
            plans(self@.0, self@.1, *target, r),
    {
        if target.is_some() && !self.provider.supports_target_lookup() {
            return Err(LookupError::TargetNotSupported);
        }
        let key: Option<String> = match &self.parameters {
            Some(p) => Some(p.api_key.clone()),
            None => None,
        };
        let url = self.provider.endpoint(&key, target);
        let auth = self.provider.request_auth(&key);
        Ok(LookupRequest { url, auth })
    }
}

/// A target lookup asked of a provider that only reports the caller's own address fails with
/// `TargetNotSupported`, and no request exists to be sent.
pub proof fn law_unsupported_target(
    provider: LookupProvider,
    parameters: Option<Parameters>,
    target: Option<IpAddress>,
    r: Result<LookupRequest, LookupError>,
)
    requires
        plans(provider, parameters, target, r),
        target is Some,
        !supports_target(provider),
    ensures
        r == Err::<LookupRequest, LookupError>(LookupError::TargetNotSupported),
        !(r is Ok),
{
}

/// A name for the text that reqwest's `StatusCode` displays for a code: the code and its
/// canonical reason.
pub uninterp spec fn status_display(code: u16) -> Seq<char>;

/// Relies on reqwest's `StatusCode::from_u16`, which accepts the codes 100 to 999, and on the
/// status code's `Display`.
#[verifier::external_body]
fn status_text(code: u16) -> (r: Option<String>)
    ensures
        (r is Some) == (100 <= code <= 999),
        r is Some ==> r->Some_0@ == status_display(code),
{
    reqwest::StatusCode::from_u16(code).ok().map(|s| s.to_string())
}

/// The text of a status code: as reqwest displays it, or its digits when reqwest refuses it.
pub open spec fn status_words(code: u16) -> Seq<char> {
    if 100 <= code <= 999 {
        status_display(code)
    } else {
        decimal(code as nat)
    }
}

/// Maps a provider's reply: status 200 gives its body, 429 a rate-limit error, any other
/// status a status error.
pub fn handle_response(status: u16, body: String) -> (r: Result<String, LookupError>)
    ensures
        status == 200 ==> r == Ok::<String, LookupError>(body),
        status == 429 ==> r is Err && r->Err_0 is TooManyRequests
            && r->Err_0->TooManyRequests_0@ == "Too many requests: "@ + status_words(status),
        status != 200 && status != 429 ==> r is Err && r->Err_0 is RequestStatus
            && r->Err_0->RequestStatus_0@ == "Status: "@ + status_words(status),
{
    if status == 200 {
        return Ok(body);
    }
    let shown = match status_text(status) {
        Some(t) => t,
        None => {
            let mut d = String::new();
            push_decimal(&mut d, status as u32);
            d
        },
    };
    if status == 429 {
        let mut msg = String::from_str("Too many requests: ");
        push_str(&mut msg, shown.as_str());
        Err(LookupError::TooManyRequests(msg))
    } else {
        let mut msg = String::from_str("Status: ");
        push_str(&mut msg, shown.as_str());
        Err(LookupError::RequestStatus(msg))
    }
}

impl std::str::FromStr for LookupProvider {
    type Err = LookupError;

    /// Parses a registry entry; see [`LookupProvider::parse_name`].
    fn from_str(s: &str) -> Result<LookupProvider, LookupError> {
        LookupProvider::parse_name(s)
    }
}

} // verus!
