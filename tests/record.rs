use cf_ddns::record::{
    records_endpoint, update_request, ApiResponse, ApiResult, ManagedRecord, AUTOMATIC_TTL,
};

#[test]
fn endpoint_of_zone_records() {
    assert_eq!(
        records_endpoint("https://api.cloudflare.com/client/v4/zones", "zone123"),
        "https://api.cloudflare.com/client/v4/zones/zone123/dns_records/"
    );
}

#[test]
fn update_request_points_record_at_content() {
    let u = update_request("vpn.example.com", "2001:db8::2");
    assert_eq!(u.record_type, "AAAA");
    assert_eq!(u.name, "vpn.example.com");
    assert_eq!(u.content, "2001:db8::2");
    assert_eq!(u.ttl, 1);
    assert_eq!(AUTOMATIC_TTL, 1);
    assert!(!u.proxied);
    assert_eq!(u.comment, "Wireguard redirection record");
}

#[test]
fn managed_record_from_response() {
    let resp = ApiResponse {
        result: ApiResult {
            id: "rec1".to_string(),
            zone_id: "zone123".to_string(),
            zone_name: "example.com".to_string(),
            name: "vpn.example.com".to_string(),
            content: "2001:db8::9".to_string(),
        },
        success: true,
        errors: vec![],
        messages: vec![],
    };
    let r = ManagedRecord::from_response(resp);
    assert_eq!(r.record_id, "rec1");
    assert_eq!(r.domain_name, "vpn.example.com");
    assert_eq!(r.current_content, "2001:db8::9");
}
