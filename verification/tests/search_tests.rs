use popbill_fax::config::Config;
use popbill_fax::search::{
    cancel_target, fax_search_pairs, fax_search_url, read_target, receive_num_type_url,
    validate_one_lookup_key, validate_yyyymmdd, FaxSearchQuery, LookupKeyError, SearchError,
};
use popbill_fax::urlenc::url_with_query;
use popbill_fax::values::ConfigValues;

fn config() -> Config {
    let mut v = ConfigValues::new();
    v.set("POPBILL_LINK_ID", "LINKID1234".to_string());
    v.set("POPBILL_SECRET_KEY", "c2VjcmV0LWtleQ==".to_string());
    v.set("POPBILL_CORP_NUM", "1234567890".to_string());
    v.set("POPBILL_USER_ID", "user1".to_string());
    Config::from_values(&v).unwrap()
}

fn query() -> FaxSearchQuery {
    FaxSearchQuery {
        start_date: None,
        end_date: Some("20260606".to_string()),
        state: vec![],
        reserve_yn: None,
        sender_only: None,
        order: "D".to_string(),
        page: 1,
        per_page: 20,
        query: None,
    }
}

#[test]
fn exactly_one_lookup_key() {
    assert_eq!(validate_one_lookup_key(Some("R"), None), Ok(()));
    assert_eq!(validate_one_lookup_key(None, Some("Q")), Ok(()));
    assert_eq!(validate_one_lookup_key(Some(" "), Some("Q")), Ok(()));
    assert_eq!(validate_one_lookup_key(None, None), Err(LookupKeyError::Missing));
    assert_eq!(validate_one_lookup_key(Some(""), Some("  ")), Err(LookupKeyError::Missing));
    assert_eq!(validate_one_lookup_key(Some("R"), Some("Q")), Err(LookupKeyError::Both));
}

#[test]
fn read_and_cancel_targets() {
    let t = read_target(Some("R1"), None).ok().unwrap();
    assert_eq!((t.mode, t.path.as_str()), ("read", "/FAX/R1"));
    let t = read_target(None, Some("Q1")).ok().unwrap();
    assert_eq!((t.mode, t.path.as_str()), ("read-request-num", "/FAX/Get/Q1"));
    let t = cancel_target(Some("R1"), None).ok().unwrap();
    assert_eq!((t.mode, t.path.as_str()), ("delete-cancel-reserve", "/FAX/R1/Cancel"));
    let t = cancel_target(None, Some("Q1")).ok().unwrap();
    assert_eq!((t.mode, t.path.as_str()), ("delete-cancel-reserve-request-num", "/FAX/Cancel/Q1"));
    assert!(matches!(read_target(None, None), Err(LookupKeyError::Missing)));
    assert!(matches!(cancel_target(Some("R"), Some("Q")), Err(LookupKeyError::Both)));
}

#[test]
fn yyyymmdd_dates() {
    assert!(validate_yyyymmdd("start-date", "20260601").is_ok());
    assert_eq!(validate_yyyymmdd("start-date", "2026-06-01").unwrap_err().label, "start-date");
    assert!(validate_yyyymmdd("end-date", "2026060").is_err());
    assert!(validate_yyyymmdd("end-date", "２０２６０６０１").is_err());
}

#[test]
fn search_pairs_in_order() {
    let pairs = fax_search_pairs(&query(), "20260601").unwrap();
    let expect: Vec<(String, String)> = [
        ("SDate", "20260601"),
        ("EDate", "20260606"),
        ("Order", "D"),
        ("Page", "1"),
        ("PerPage", "20"),
    ]
    .iter()
    .map(|(a, b)| (a.to_string(), b.to_string()))
    .collect();
    assert_eq!(pairs, expect);

    let mut q = query();
    q.state = vec!["1".to_string(), "2".to_string()];
    q.reserve_yn = Some(true);
    q.sender_only = Some(false);
    q.order = "  ".to_string();
    q.query = Some(" 홍 길동 ".to_string());
    let pairs = fax_search_pairs(&q, "20260601").unwrap();
    let keys: Vec<&str> = pairs.iter().map(|p| p.0.as_str()).collect();
    assert_eq!(keys, ["SDate", "EDate", "State", "ReserveYN", "SenderOnly", "Page", "PerPage", "QString"]);
    assert_eq!(pairs[2].1, "1,2");
    assert_eq!(pairs[3].1, "1");
    assert_eq!(pairs[4].1, "0");
    assert_eq!(pairs[7].1, "홍 길동");
}

#[test]
fn search_refusals() {
    let mut q = query();
    q.per_page = 0;
    assert_eq!(fax_search_pairs(&q, "bad").unwrap_err(), SearchError::StartDateFormat);
    assert_eq!(fax_search_pairs(&q, "20260601").unwrap_err(), SearchError::PerPageRange);
    q.per_page = 1001;
    assert_eq!(fax_search_pairs(&q, "20260601").unwrap_err(), SearchError::PerPageRange);
    q.per_page = 1000;
    q.page = 0;
    assert_eq!(fax_search_pairs(&q, "20260601").unwrap_err(), SearchError::PageZero);
    q.page = 1;
    q.end_date = Some("x".to_string());
    assert_eq!(fax_search_pairs(&q, "20260601").unwrap_err(), SearchError::EndDateFormat);
}

#[test]
fn query_strings_are_form_encoded() {
    let pairs = vec![
        ("receiveNumType".to_string(), "일반".to_string()),
        ("q".to_string(), "a b*~&=".to_string()),
    ];
    assert_eq!(
        url_with_query("https://h/p", &pairs),
        "https://h/p?receiveNumType=%EC%9D%BC%EB%B0%98&q=a+b*%7E%26%3D"
    );
    assert_eq!(
        receive_num_type_url(&config(), "/FAX/UnitCost", "일반"),
        "https://popbill.linkhub.co.kr/FAX/UnitCost?receiveNumType=%EC%9D%BC%EB%B0%98"
    );
    assert_eq!(
        fax_search_url(&config(), &query(), "20260601").unwrap(),
        "https://popbill.linkhub.co.kr/FAX/Search?SDate=20260601&EDate=20260606&Order=D&Page=1&PerPage=20"
    );
}
