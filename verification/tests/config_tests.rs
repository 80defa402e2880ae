use popbill_fax::config::{
    approval_client_timeout, approval_url, bool_value, insert_optional, insert_optional_bool,
    linkhub_base, mask, optional_value, popbill_base, popbill_url, required, string_value,
    toml_values, u64_value, Config, ConfigErrorKind, TomlConfig,
};
use popbill_fax::envfile::{parse_env_file, strip_quotes, EnvErrorKind};
use popbill_fax::values::ConfigValues;

fn values(pairs: &[(&str, &str)]) -> ConfigValues {
    let mut v = ConfigValues::new();
    for (k, val) in pairs {
        v.set(k, val.to_string());
    }
    v
}

fn base_values() -> ConfigValues {
    values(&[
        ("POPBILL_LINK_ID", "LINKID1234"),
        ("POPBILL_SECRET_KEY", "c2VjcmV0LWtleQ=="),
        ("POPBILL_CORP_NUM", "1234567890"),
        ("POPBILL_USER_ID", "user1"),
    ])
}

#[test]
fn strip_quotes_removes_one_matching_pair() {
    assert_eq!(strip_quotes("\"abc\""), "abc");
    assert_eq!(strip_quotes("'abc'"), "abc");
    assert_eq!(strip_quotes("\"abc'"), "\"abc'");
    assert_eq!(strip_quotes("\"\""), "");
    assert_eq!(strip_quotes("\""), "\"");
    assert_eq!(strip_quotes("\"\"x\"\""), "\"x\"");
    assert_eq!(strip_quotes("é"), "é");
}

#[test]
fn env_file_reads_pairs_comments_and_export() {
    let content = "# comment\n\nPOPBILL_LINK_ID = abc \nexport POPBILL_CORP_NUM=\"123\"\r\nKEY='v=1'\nKEY=second\n";
    let v = parse_env_file(content).unwrap();
    assert_eq!(v.get("POPBILL_LINK_ID"), Some("abc".to_string()));
    assert_eq!(v.get("POPBILL_CORP_NUM"), Some("123".to_string()));
    assert_eq!(v.get("KEY"), Some("second".to_string()));
    assert_eq!(v.get("MISSING"), None);
}

#[test]
fn env_file_refuses_line_without_equals() {
    let e = parse_env_file("A=1\n\nnot a pair\nB=2").unwrap_err();
    assert_eq!(e.kind, EnvErrorKind::InvalidLine);
    assert_eq!(e.line, 3);
}

#[test]
fn env_file_refuses_empty_key() {
    let e = parse_env_file("# x\n  = value").unwrap_err();
    assert_eq!(e.kind, EnvErrorKind::EmptyKey);
    assert_eq!(e.line, 2);
    let e = parse_env_file("export =1").unwrap_err();
    assert_eq!(e.kind, EnvErrorKind::EmptyKey);
    assert_eq!(e.line, 1);
}

#[test]
fn env_file_empty_is_empty() {
    let v = parse_env_file("").unwrap();
    assert_eq!(v.get("A"), None);
}

#[test]
fn required_trims_and_reports_missing_or_empty() {
    let v = values(&[("A", "  x  "), ("B", "   ")]);
    assert_eq!(required(&v, "A").unwrap(), "x");
    let e = required(&v, "B").unwrap_err();
    assert_eq!(e.kind, ConfigErrorKind::Empty);
    assert_eq!(e.key, "B");
    let e = required(&v, "C").unwrap_err();
    assert_eq!(e.kind, ConfigErrorKind::Missing);
    assert_eq!(e.key, "C");
}

#[test]
fn optional_and_string_values() {
    let v = values(&[("A", " x "), ("B", " ")]);
    assert_eq!(optional_value(&v, "A"), Some("x".to_string()));
    assert_eq!(optional_value(&v, "B"), None);
    assert_eq!(optional_value(&v, "C"), None);
    assert_eq!(string_value(&v, "B", "dflt"), "dflt");
    assert_eq!(string_value(&v, "A", "dflt"), "x");
}

#[test]
fn bool_values_are_case_insensitive_switches() {
    let v = values(&[("T1", "TRUE"), ("T2", "Yes"), ("T3", "1"), ("T4", "On"), ("T5", "y"), ("F1", "false"), ("F2", " true"), ("F3", "")]);
    for k in ["T1", "T2", "T3", "T4", "T5"] {
        assert!(bool_value(&v, k, false), "{k}");
    }
    for k in ["F1", "F2", "F3"] {
        assert!(!bool_value(&v, k, true), "{k}");
    }
    assert!(bool_value(&v, "ABSENT", true));
    assert!(!bool_value(&v, "ABSENT", false));
}

#[test]
fn u64_values_fall_back_on_default() {
    let v = values(&[("A", "42"), ("B", "x"), ("C", " 4")]);
    assert_eq!(u64_value(&v, "A", 7), 42);
    assert_eq!(u64_value(&v, "B", 7), 7);
    assert_eq!(u64_value(&v, "C", 7), 7);
    assert_eq!(u64_value(&v, "D", 7), 7);
}

#[test]
fn insert_optional_sets_only_given_values() {
    let mut v = ConfigValues::new();
    insert_optional(&mut v, "A", Some("x".to_string()));
    insert_optional(&mut v, "B", None);
    insert_optional_bool(&mut v, "C", Some(false));
    insert_optional_bool(&mut v, "D", None);
    assert_eq!(v.get("A"), Some("x".to_string()));
    assert_eq!(v.get("B"), None);
    assert_eq!(v.get("C"), Some("false".to_string()));
    assert_eq!(v.get("D"), None);
}

#[test]
fn toml_settings_read_back() {
    let t = TomlConfig {
        link_id: Some("LINK".to_string()),
        is_test: Some(true),
        ip_restrict: Some(false),
        approval_timeout_secs: Some(90),
        siren_wait_secs: Some(0),
        ..TomlConfig::default()
    };
    let v = toml_values(&t);
    assert_eq!(v.get("POPBILL_LINK_ID"), Some("LINK".to_string()));
    assert_eq!(v.get("POPBILL_IS_TEST"), Some("true".to_string()));
    assert_eq!(v.get("POPBILL_FAX_APPROVAL_TIMEOUT_SEC"), Some("90".to_string()));
    assert!(bool_value(&v, "POPBILL_IS_TEST", false));
    assert!(!bool_value(&v, "POPBILL_IP_RESTRICT", true));
    assert_eq!(u64_value(&v, "POPBILL_FAX_APPROVAL_TIMEOUT_SEC", 600), 90);
    assert_eq!(u64_value(&v, "POPBILL_FAX_SIREN_WAIT_SEC", 12), 0);
}

#[test]
fn config_defaults_and_required_order() {
    let c = Config::from_values(&base_values()).unwrap();
    assert_eq!(c.link_id, "LINKID1234");
    assert!(!c.is_test);
    assert!(c.ip_restrict);
    assert!(!c.use_static_ip);
    assert!(c.use_local_time);
    assert!(!c.use_ga_ip);
    assert_eq!(c.approval_url, "http://127.0.0.1:5510");
    assert_eq!(c.approval_timeout_secs, 600);
    assert_eq!(c.siren_status_url, None);
    assert_eq!(c.siren_wait_secs, 12);

    let e = Config::from_values(&values(&[("POPBILL_CORP_NUM", "1")])).unwrap_err();
    assert_eq!(e.key, "POPBILL_LINK_ID");
    assert_eq!(e.kind, ConfigErrorKind::Missing);
    let mut v = base_values();
    v.set("POPBILL_USER_ID", " ".to_string());
    assert_eq!(Config::from_values(&v).unwrap().user_id, " ");
    v.set("POPBILL_USER_ID", " user2 ".to_string());
    assert_eq!(Config::from_values(&v).unwrap().user_id, " user2 ");
    let e = Config::from_values(&values(&[
        ("POPBILL_LINK_ID", "LINKID1234"),
        ("POPBILL_SECRET_KEY", "c2VjcmV0LWtleQ=="),
        ("POPBILL_CORP_NUM", "1234567890"),
    ]))
    .unwrap_err();
    assert_eq!(e.key, "POPBILL_USER_ID");
    assert_eq!(e.kind, ConfigErrorKind::Missing);
    let mut v = base_values();
    v.set("WARNING_LIGHT_STATUS_URL", "http://light".to_string());
    v.set("SIREN_STATUS_URL", "http://siren".to_string());
    assert_eq!(Config::from_values(&v).unwrap().siren_status_url.as_deref(), Some("http://light"));
}

#[test]
fn process_environment_overrides_env_file_overrides_toml() {
    let toml = toml_values(&TomlConfig {
        link_id: Some("FROMTOML1".to_string()),
        secret_key: Some("c2VjcmV0".to_string()),
        corp_num: Some("1111111111".to_string()),
        user_id: Some("tomluser".to_string()),
        ..TomlConfig::default()
    });
    let env_file = parse_env_file("POPBILL_CORP_NUM=2222222222\nPOPBILL_USER_ID=envuser\n").unwrap();
    let process = vec![
        ("POPBILL_USER_ID".to_string(), "procuser".to_string()),
        ("OTHER_USER_ID".to_string(), "ignored".to_string()),
        ("SIREN_STATUS_URL".to_string(), "http://not-prefixed".to_string()),
    ];
    let c = Config::load(&toml, &env_file, &process).unwrap();
    assert_eq!(c.link_id, "FROMTOML1");
    assert_eq!(c.corp_num, "2222222222");
    assert_eq!(c.user_id, "procuser");
    assert_eq!(c.siren_status_url, None);
}

#[test]
fn mask_hides_all_but_four_bytes_each_side() {
    assert_eq!(mask("12345678"), "********");
    assert_eq!(mask(""), "********");
    assert_eq!(mask("1234567890"), "1234...7890");
    assert_eq!(mask("LINKID-ABCDEFG"), "LINK...DEFG");
}

#[test]
fn public_config_masks_and_omits_secret() {
    let c = Config::from_values(&base_values()).unwrap();
    let p = c.public();
    assert_eq!(p.link_id, "LINK...1234");
    assert_eq!(p.corp_num, "1234...7890");
    assert_eq!(p.user_id, "user1");
    assert!(!p.is_test);
}

#[test]
fn service_ids_and_hosts() {
    let mut c = Config::from_values(&base_values()).unwrap();
    assert_eq!(c.service_id(), "POPBILL");
    assert_eq!(linkhub_base(&c), "https://auth.linkhub.co.kr");
    assert_eq!(popbill_base(&c), "https://popbill.linkhub.co.kr");
    c.is_test = true;
    assert_eq!(c.service_id(), "POPBILL_TEST");
    assert_eq!(popbill_base(&c), "https://popbill-test.linkhub.co.kr");
    c.use_static_ip = true;
    assert_eq!(linkhub_base(&c), "https://static-auth.linkhub.co.kr");
    assert_eq!(popbill_base(&c), "https://static-popbill-test.linkhub.co.kr");
    c.use_ga_ip = true;
    assert_eq!(linkhub_base(&c), "https://ga-auth.linkhub.co.kr");
    assert_eq!(popbill_base(&c), "https://ga-popbill-test.linkhub.co.kr");
    c.is_test = false;
    assert_eq!(popbill_base(&c), "https://ga-popbill.linkhub.co.kr");
    c.use_ga_ip = false;
    assert_eq!(popbill_base(&c), "https://static-popbill.linkhub.co.kr");
    assert_eq!(popbill_url(&c, "/FAX"), "https://static-popbill.linkhub.co.kr/FAX");
}

#[test]
fn approval_urls_drop_trailing_slashes() {
    let mut c = Config::from_values(&base_values()).unwrap();
    c.approval_url = "  http://host:1/base// ".to_string();
    assert_eq!(approval_url(&c, "/defer"), "http://host:1/base/defer");
    c.approval_timeout_secs = u64::MAX - 3;
    assert_eq!(approval_client_timeout(&c), u64::MAX);
    c.approval_timeout_secs = 600;
    assert_eq!(approval_client_timeout(&c), 615);
}
