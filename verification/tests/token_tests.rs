use popbill_fax::config::Config;
use popbill_fax::token::{
    b64_hmac_sha256, b64_sha256, call_time_source, hmac_target, linkhub_call, local_call_time,
    popbill_headers, server_call_time, today_yyyymmdd, token_body, token_request, CallTimeSource,
    LinkhubToken, TokenError,
};
use popbill_fax::values::ConfigValues;

fn config() -> Config {
    let mut v = ConfigValues::new();
    v.set("POPBILL_LINK_ID", "LINKID1234".to_string());
    v.set("POPBILL_SECRET_KEY", "c2VjcmV0LWtleQ==".to_string());
    v.set("POPBILL_CORP_NUM", "1234567890".to_string());
    v.set("POPBILL_USER_ID", "user1".to_string());
    v.set("POPBILL_IS_TEST", "true".to_string());
    Config::from_values(&v).unwrap()
}

#[test]
fn digests_and_signatures() {
    assert_eq!(b64_sha256(""), "47DEQpj8HBSa+/TImW+5JCeuQeRkm5NMpJWZG3hSuFU=");
    assert_eq!(
        b64_hmac_sha256("a2V5", "The quick brown fox jumps over the lazy dog").unwrap(),
        "97yD9DBThCSxMpjmqm+xQ+9NWaFJRhdZl0edvC0aPNg="
    );
    assert_eq!(b64_hmac_sha256("not base64!", "x").unwrap_err(), TokenError::SecretKeyNotBase64);
    let long_key = "a2tr".repeat(33) + "aw==";
    assert_eq!(b64_hmac_sha256(&long_key, "msg").unwrap(), "vVaheCwoMOirxu2GalehIwZh5lC4TGL37jrMxfpa9JE=");
    assert_eq!(b64_hmac_sha256("", "msg").is_ok(), true);
}

#[test]
fn token_body_and_signed_text() {
    assert_eq!(
        token_body("1234567890").unwrap(),
        "{\"access_id\":\"1234567890\",\"scope\":[\"member\",\"160\",\"161\"]}"
    );
    assert_eq!(token_body("a\"b").unwrap(), "{\"access_id\":\"a\\\"b\",\"scope\":[\"member\",\"160\",\"161\"]}");
    assert_eq!(hmac_target("H", "T", true, "/P/Token"), "POST\nH\nT\n2.0\n/P/Token");
    assert_eq!(hmac_target("H", "T", false, "/P/Token"), "POST\nH\nT\n*\n2.0\n/P/Token");
}

#[test]
fn token_request_is_signed() {
    let c = config();
    let t = token_request(&c, "2024-01-02T03:04:05Z").ok().unwrap();
    assert_eq!(t.url, "https://auth.linkhub.co.kr/POPBILL_TEST/Token");
    assert_eq!(t.body, "{\"access_id\":\"1234567890\",\"scope\":[\"member\",\"160\",\"161\"]}");
    let h: Vec<(&str, &str)> = t.headers.iter().map(|(a, b)| (a.as_str(), b.as_str())).collect();
    assert_eq!(
        h,
        [
            ("x-lh-date", "2024-01-02T03:04:05Z"),
            ("x-lh-version", "2.0"),
            ("content-type", "Application/json"),
            ("user-agent", "RUST LINKHUB SDK"),
            ("authorization", "LINKHUB LINKID1234 wbslI+vphsXmdtxxama0HNI88HM/V8DXqeX6yid1R3A="),
        ]
    );
    let mut open = config();
    open.ip_restrict = false;
    let t = token_request(&open, "T").ok().unwrap();
    assert!(t.headers.iter().any(|(a, b)| a == "x-lh-forwarded" && b == "*"));
    let mut bad = config();
    bad.secret_key = "%%%".to_string();
    assert_eq!(token_request(&bad, "T").err().unwrap(), TokenError::SecretKeyNotBase64);
}

#[test]
fn call_times() {
    assert_eq!(local_call_time(0).unwrap(), "1970-01-01T00:00:00Z");
    assert_eq!(local_call_time(1_700_000_000).unwrap(), "2023-11-14T22:13:20Z");
    assert_eq!(today_yyyymmdd(1_700_000_000).unwrap(), "20231114");
    assert_eq!(server_call_time("\"2024-01-02T03:04:05Z\""), "2024-01-02T03:04:05Z");
    assert_eq!(server_call_time("\"\"x\""), "x");
    let mut c = config();
    assert!(matches!(call_time_source(&c), CallTimeSource::Local));
    c.use_local_time = false;
    match call_time_source(&c) {
        CallTimeSource::Server(u) => assert_eq!(u, "https://auth.linkhub.co.kr/Time"),
        CallTimeSource::Local => panic!("expected server time"),
    }
}

#[test]
fn call_headers() {
    let c = config();
    let token = LinkhubToken {
        session_token: "TOK".to_string(),
        service_id_upper: None,
        service_id_lower: Some("SVC".to_string()),
    };
    let h = popbill_headers(&c, &token);
    assert_eq!(h[1], ("authorization".to_string(), "Bearer TOK".to_string()));
    assert_eq!(h[2], ("x-pb-userid".to_string(), "user1".to_string()));
    let (url, h) = linkhub_call(&c, &token, "Point");
    assert_eq!(url, "https://auth.linkhub.co.kr/SVC/Point");
    assert_eq!(h[0].1, "Bearer TOK");
    let token = LinkhubToken { session_token: "T".to_string(), service_id_upper: None, service_id_lower: None };
    assert_eq!(linkhub_call(&c, &token, "Point").0, "https://auth.linkhub.co.kr/POPBILL_TEST/Point");
}
