use public_ip_address::error::LookupError;
use public_ip_address::ip::IpAddress;
use public_ip_address::lookup::providers::{
    AbstractApi, FreeIpApi, IfConfig, Ip2Location, IpApiCo, IpApiCom, IpApiIo, IpData,
    IpGeolocation, IpInfo, IpLocateIo, IpQuery, IpWhoIs, Ipify, Mock, MyIp, Provider, RequestAuth,
};
use public_ip_address::lookup::{handle_response, LookupProvider, LookupService, Parameters};
use std::str::FromStr;

fn key(k: &str) -> Option<String> {
    Some(k.to_string())
}

#[test]
fn test_conversions() {
    let provider = LookupProvider::from_str("freeipapi").unwrap();
    assert_eq!(provider, LookupProvider::FreeIpApi, "Conversion failed");

    let provider = LookupProvider::from_str("unknown");
    assert!(provider.is_err(), "Conversion should fail");
}

#[test]
fn test_conversions_with_key() {
    let (provider, parameters) = LookupProvider::from_str_with_params("ipdata abc").unwrap();
    assert_eq!(provider, LookupProvider::IpData, "Conversion failed");
    assert_eq!(
        parameters,
        Some(Parameters {
            api_key: "abc".to_string()
        }),
        "Parameter conversion failed"
    );

    let (provider, parameters) = LookupProvider::from_str_with_params("ipdata").unwrap();
    assert_eq!(provider, LookupProvider::IpData, "Conversion failed");
    assert_eq!(parameters, None, "Parameter conversion failed");
}

#[test]
fn test_set_provider() {
    let mut provider = LookupService::new(LookupProvider::IpApiCom, None);
    assert_eq!(provider.get_provider_type(), LookupProvider::IpApiCom);
    provider.set_provider(LookupProvider::IpInfo);
    assert_eq!(provider.get_provider_type(), LookupProvider::IpInfo);
}

#[test]
fn test_target_supported() {
    let address = IpAddress::V4(8, 8, 8, 8);
    let provider = LookupService::new(
        LookupProvider::Mock("8.8.8.8".to_string(), "http://127.0.0.1:1".to_string()),
        None,
    );
    let request = provider.request(&Some(address));
    assert!(request.is_ok());
}

#[test]
fn test_target_not_supported() {
    let address = IpAddress::V4(1, 1, 1, 1);
    let provider = LookupService::new(LookupProvider::MyIp, None);
    let response = provider.request(&Some(address)).unwrap_err();
    assert_eq!(response, LookupError::TargetNotSupported, "Target lookup should fail");
}

#[test]
fn test_handle_response() {
    let body = handle_response(200, "{}".to_string());
    assert!(body.is_ok(), "Response is an error {:#?}", body);
    assert_eq!(body.unwrap(), "{}");
}

#[test]
fn test_handle_response_error() {
    let body = handle_response(500, String::new());
    assert!(body.is_err(), "Response should be an error {:#?}", body);
    assert_eq!(
        body.unwrap_err(),
        LookupError::RequestStatus("Status: 500 Internal Server Error".to_string()),
    );
}

#[test]
fn test_handle_response_too_many() {
    let body = handle_response(429, String::new());
    assert!(body.is_err(), "Response should be an error {:#?}", body);
    assert_eq!(
        body.unwrap_err(),
        LookupError::TooManyRequests("Too many requests: 429 Too Many Requests".to_string()),
    );
}

#[test]
fn handle_response_unknown_code_is_shown_by_digits() {
    assert_eq!(
        handle_response(42, String::new()).unwrap_err(),
        LookupError::RequestStatus("Status: 42".to_string()),
    );
}

#[test]
fn registry_is_case_insensitive_and_trims() {
    let (provider, parameters) = LookupProvider::from_str_with_params("  IpInfo\tMyKey  ").unwrap();
    assert_eq!(provider, LookupProvider::IpInfo);
    assert_eq!(parameters, Some(Parameters::new("mykey".to_string())));
    assert_eq!(LookupProvider::from_str("ABSTRACT").unwrap(), LookupProvider::AbstractApi);
}

#[test]
fn registry_errors() {
    assert_eq!(
        LookupProvider::from_str("   "),
        Err(LookupError::GenericError("No provider given".to_string()))
    );
    assert_eq!(
        LookupProvider::from_str_with_params(""),
        Err(LookupError::GenericError("No provider given".to_string()))
    );
    assert_eq!(
        LookupProvider::from_str_with_params("Nowhere key"),
        Err(LookupError::GenericError("Provider not found: nowhere".to_string()))
    );
}

#[test]
fn registry_knows_every_name() {
    let names = [
        ("freeipapi", LookupProvider::FreeIpApi),
        ("ifconfig", LookupProvider::IfConfig),
        ("ipinfo", LookupProvider::IpInfo),
        ("myip", LookupProvider::MyIp),
        ("ipapicom", LookupProvider::IpApiCom),
        ("ipwhois", LookupProvider::IpWhoIs),
        ("ipapico", LookupProvider::IpApiCo),
        ("ipapiio", LookupProvider::IpApiIo),
        ("ipbase", LookupProvider::IpBase),
        ("iplocateio", LookupProvider::IpLocateIo),
        ("ipleak", LookupProvider::IpLeak),
        ("mullvad", LookupProvider::Mullvad),
        ("abstract", LookupProvider::AbstractApi),
        ("ipgeolocation", LookupProvider::IpGeolocation),
        ("ipdata", LookupProvider::IpData),
        ("ip2location", LookupProvider::Ip2Location),
        ("myipcom", LookupProvider::MyIpCom),
        ("ipify", LookupProvider::Ipify),
        ("getjsonip", LookupProvider::GetJsonIp),
        ("ipquery", LookupProvider::IpQuery),
    ];
    for (name, provider) in names {
        assert_eq!(LookupProvider::from_str(name).unwrap(), provider);
    }
}

#[test]
fn endpoints_with_key_and_target() {
    let t = Some(IpAddress::V4(8, 8, 8, 8));
    assert_eq!(IpInfo.get_endpoint(&key("abc"), &t), "https://ipinfo.io/8.8.8.8/json?token=abc");
    assert_eq!(IpInfo.get_endpoint(&None, &None), "https://ipinfo.io/json");
    assert_eq!(FreeIpApi.get_endpoint(&None, &t), "https://freeipapi.com/api/json/8.8.8.8");
    assert_eq!(IfConfig.get_endpoint(&None, &t), "http://ifconfig.co/json?ip=8.8.8.8");
    assert_eq!(
        IpApiCom.get_endpoint(&None, &t),
        "http://ip-api.com/json/8.8.8.8?fields=66846719"
    );
    assert_eq!(IpWhoIs.get_endpoint(&None, &None), "https://ipwho.is/");
    assert_eq!(IpApiCo.get_endpoint(&None, &t), "https://ipapi.co/8.8.8.8/json");
    assert_eq!(
        IpApiIo.get_endpoint(&key("k"), &t),
        "https://ip-api.io/json/8.8.8.8?api_key=k"
    );
    assert_eq!(
        IpLocateIo.get_endpoint(&key("k"), &t),
        "https://iplocate.io/api/lookup/8.8.8.8/json?apikey=k"
    );
    assert_eq!(
        AbstractApi.get_endpoint(&key("k"), &t),
        "https://ipgeolocation.abstractapi.com/v1/?api_key=k&ip_address=8.8.8.8"
    );
    assert_eq!(
        IpGeolocation.get_endpoint(&key("k"), &t),
        "https://api.ipgeolocation.io/ipgeo?apiKey=k&ip=8.8.8.8"
    );
    assert_eq!(IpData.get_endpoint(&key("k"), &t), "https://api.ipdata.co/8.8.8.8?api-key=k");
    assert_eq!(
        Ip2Location.get_endpoint(&key("k"), &t),
        "https://api.ip2location.io/?key=k&ip=8.8.8.8"
    );
    assert_eq!(IpQuery.get_endpoint(&None, &t), "https://api.ipquery.io/8.8.8.8?format=json");
    assert_eq!(MyIp.get_endpoint(&key("k"), &t), "https://api.my-ip.io/v2/ip.json");
    assert_eq!(Ipify.get_endpoint(&None, &None), "https://api64.ipify.org/?format=json");
    let mock = Mock { ip: "1.1.1.1".to_string(), endpoint: "http://localhost:9".to_string() };
    assert_eq!(mock.get_endpoint(&key("k"), &t), "http://localhost:9");
}

#[test]
fn ipv6_target_text() {
    let t = Some(IpAddress::V6(0x2001, 0xdb8, 0, 0, 0, 0, 0, 0x1f));
    assert_eq!(
        IpApiCom.get_endpoint(&None, &t),
        "http://ip-api.com/json/2001:db8::1f?fields=66846719"
    );
    assert_eq!(IpAddress::V4(192, 168, 0, 10).to_text(), "192.168.0.10");
}

#[test]
fn ipv6_canonical_text() {
    let cases = [
        (IpAddress::V6(0, 0, 0, 0, 0, 0, 0, 0), "::"),
        (IpAddress::V6(0, 0, 0, 0, 0, 0, 0, 1), "::1"),
        (IpAddress::V6(1, 0, 0, 0, 0, 0, 0, 0), "1::"),
        (IpAddress::V6(0, 0, 0, 0, 0, 0xffff, 0x0102, 0x0304), "::ffff:1.2.3.4"),
        (IpAddress::V6(1, 0, 0, 2, 0, 0, 0, 3), "1:0:0:2::3"),
        (IpAddress::V6(1, 0, 0, 2, 0, 0, 3, 4), "1::2:0:0:3:4"),
        (IpAddress::V6(1, 0, 2, 3, 4, 5, 6, 7), "1:0:2:3:4:5:6:7"),
        (IpAddress::V6(0xfe80, 0, 0, 0, 0xabcd, 0xef, 0x10, 0xffff), "fe80::abcd:ef:10:ffff"),
    ];
    for (ip, text) in cases {
        assert_eq!(ip.to_text(), text);
    }
}

#[test]
fn authentication_per_provider() {
    assert_eq!(FreeIpApi.add_auth(&key("tok")), RequestAuth::Bearer("tok".to_string()));
    assert_eq!(FreeIpApi.add_auth(&None), RequestAuth::Anonymous);
    assert_eq!(
        IpApiCo.add_auth(&None),
        RequestAuth::Header("User-Agent".to_string(), "nil".to_string())
    );
    assert_eq!(IpInfo.add_auth(&key("tok")), RequestAuth::Anonymous);
}

#[test]
fn target_support_per_provider() {
    let supporting = [
        LookupProvider::IpApiCom,
        LookupProvider::IpApiIo,
        LookupProvider::IpLocateIo,
        LookupProvider::IpQuery,
        LookupProvider::Mock(String::new(), String::new()),
    ];
    for p in supporting {
        assert!(p.supports_target_lookup());
    }
    // Every provider whose URL takes the target can look one up
    let t = Some(IpAddress::V4(8, 8, 8, 8));
    for name in [
        "freeipapi", "ifconfig", "ipinfo", "ipapicom", "ipwhois", "ipapico", "ipapiio",
        "iplocateio", "ipleak", "abstract", "ipgeolocation", "ipdata", "ip2location", "ipquery",
    ] {
        let p = LookupProvider::from_str(name).unwrap();
        assert!(p.supports_target_lookup(), "{name}");
        assert_ne!(p.endpoint(&None, &t), p.endpoint(&None, &None), "{name}");
    }
    for name in ["myip", "ipbase", "mullvad", "myipcom", "ipify", "getjsonip"] {
        let p = LookupProvider::from_str(name).unwrap();
        assert!(!p.supports_target_lookup(), "{name}");
        assert_eq!(p.endpoint(&None, &t), p.endpoint(&None, &None), "{name}");
    }
    assert!(!IpInfo.supports_bulk_lookup());
}

#[test]
fn service_request_carries_url_and_auth() {
    let mut service = LookupService::new(LookupProvider::FreeIpApi, None);
    service.set_parameters(Parameters::new("secret".to_string()));
    let request = service.request(&None).unwrap();
    assert_eq!(request.url, "https://freeipapi.com/api/json/");
    assert_eq!(request.auth, RequestAuth::Bearer("secret".to_string()));

    let service = LookupService::new(LookupProvider::IpInfo, Some(Parameters::new("t".to_string())));
    assert_eq!(service.request(&None).unwrap().url, "https://ipinfo.io/json?token=t");
}
