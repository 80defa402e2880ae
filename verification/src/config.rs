//! The client configuration: where it is read from, what each setting means,
//! and which parts of it may be shown.
use vstd::prelude::*;
use vstd::string::StringSliceAdditionalSpecFns;
use vstd::utf8::{decode_utf8, encode_utf8, encode_utf8_decode_utf8, is_char_boundary};
use crate::decimal::{decimal, parse_u64, spec_decimal, spec_parse_u64};
use crate::text::{
    ascii_lowercase, chars_equal, owned, push_char, spec_ascii_lowercase, spec_starts_with,
    spec_trim, trim, trimmed,
};
use crate::values::{ConfigValues, lookup, pairs_view, prefixed_map};

verus! {

pub const KEY_LINK_ID: &'static str = "POPBILL_LINK_ID";
pub const KEY_SECRET_KEY: &'static str = "POPBILL_SECRET_KEY";
pub const KEY_CORP_NUM: &'static str = "POPBILL_CORP_NUM";
pub const KEY_USER_ID: &'static str = "POPBILL_USER_ID";
pub const KEY_IS_TEST: &'static str = "POPBILL_IS_TEST";
pub const KEY_IP_RESTRICT: &'static str = "POPBILL_IP_RESTRICT";
pub const KEY_USE_STATIC_IP: &'static str = "POPBILL_USE_STATIC_IP";
pub const KEY_USE_LOCAL_TIME: &'static str = "POPBILL_USE_LOCAL_TIME";
pub const KEY_USE_GA_IP: &'static str = "POPBILL_USE_GA_IP";
pub const KEY_APPROVAL_URL: &'static str = "POPBILL_FAX_APPROVAL_URL";
pub const KEY_APPROVAL_TIMEOUT: &'static str = "POPBILL_FAX_APPROVAL_TIMEOUT_SEC";
pub const KEY_SIREN_STATUS_URL: &'static str = "POPBILL_FAX_SIREN_STATUS_URL";
pub const KEY_WARNING_LIGHT_URL: &'static str = "WARNING_LIGHT_STATUS_URL";
pub const KEY_SIREN_URL: &'static str = "SIREN_STATUS_URL";
pub const KEY_SIREN_WAIT: &'static str = "POPBILL_FAX_SIREN_WAIT_SEC";
/// Only process environment variables with this prefix are settings.
pub const ENV_PREFIX: &'static str = "POPBILL_";
pub const DEFAULT_APPROVAL_URL: &'static str = "http://127.0.0.1:5510";
pub const DEFAULT_APPROVAL_TIMEOUT_SECS: u64 = 600;
pub const DEFAULT_SIREN_WAIT_SECS: u64 = 12;
pub const SERVICE_ID_REAL: &'static str = "POPBILL";
pub const SERVICE_ID_TEST: &'static str = "POPBILL_TEST";

pub type Settings = Map<Seq<char>, Seq<char>>;

/// Why a configuration could not be built.
#[derive(Clone, Copy, PartialEq, Eq, Structural, Debug)]
pub enum ConfigErrorKind {
    /// The setting is absent (`{key} is required`).
    Missing,
    /// The setting is present but blank (`{key} is empty`).
    Empty,
}

/// A setting that is required and absent or blank.
#[derive(Clone, Debug)]
pub struct ConfigError {
    pub kind: ConfigErrorKind,
    pub key: String,
}

/// What `required` gives: the trimmed value, or why there is none.
pub open spec fn spec_required(m: Settings, k: Seq<char>) -> Result<Seq<char>, ConfigErrorKind> {
    if !m.contains_key(k) {
        Err(ConfigErrorKind::Missing)
    } else if spec_trim(m[k]).len() == 0 {
        Err(ConfigErrorKind::Empty)
    } else {
        Ok(spec_trim(m[k]))
    }
}

/// What `optional_value` gives: the trimmed value when it is not blank.
pub open spec fn spec_optional(m: Settings, k: Seq<char>) -> Option<Seq<char>> {
    if m.contains_key(k) && spec_trim(m[k]).len() > 0 {
        Some(spec_trim(m[k]))
    } else {
        None
    }
}

/// The texts that read as "on": `1`, `true`, `yes`, `y`, `on`, in any ASCII case.
pub open spec fn spec_truthy(s: Seq<char>) -> bool {
    let l = spec_ascii_lowercase(s);
    ||| l == seq!['1']
    ||| l == seq!['t', 'r', 'u', 'e']
    ||| l == seq!['y', 'e', 's']
    ||| l == seq!['y']
    ||| l == seq!['o', 'n']
}

/// What `bool_value` gives: the default when absent, else whether the value reads as "on".
pub open spec fn spec_bool(m: Settings, k: Seq<char>, default_value: bool) -> bool {
    if m.contains_key(k) {
        spec_truthy(m[k])
    } else {
        default_value
    }
}

/// What `u64_value` gives: the value when present and a number, else the default.
pub open spec fn spec_u64(m: Settings, k: Seq<char>, default_value: u64) -> u64 {
    if m.contains_key(k) && spec_parse_u64(m[k]) is Some {
        spec_parse_u64(m[k])->0
    } else {
        default_value
    }
}

/// The trimmed value of a required setting.
pub fn required(values: &ConfigValues, key: &str) -> (r: Result<String, ConfigError>)
    ensures
        match spec_required(values@, key@) {
            Ok(v) => r matches Ok(s) && s@ == v,
            Err(kind) => r matches Err(e) && e.kind == kind && e.key@ == key@,
        },
{
    match values.get(key) {
        None => Err(ConfigError { kind: ConfigErrorKind::Missing, key: owned(key) }),
        Some(raw) => {
            let value = trimmed(raw.as_str());
            if value.as_str().is_empty() {
                Err(ConfigError { kind: ConfigErrorKind::Empty, key: owned(key) })
            } else {
                Ok(value)
            }
        },
    }
}

/// The trimmed value of a setting, unless it is absent or blank.
pub fn optional_value(values: &ConfigValues, key: &str) -> (r: Option<String>)
    ensures
        match spec_optional(values@, key@) {
            Some(v) => r matches Some(s) && s@ == v,
            None => r is None,
        },
{
    match values.get(key) {
        None => None,
        Some(raw) => {
            let value = trim(raw.as_str());
            if value.is_empty() {
                None
            } else {
                Some(owned(value))
            }
        },
    }
}

/// The trimmed value of a setting, or `default_value` when it is absent or blank.
pub fn string_value(values: &ConfigValues, key: &str, default_value: &str) -> (r: String)
    ensures
        r@ == match spec_optional(values@, key@) {
            Some(v) => v,
            None => default_value@,
        },
{
    match optional_value(values, key) {
        Some(v) => v,
        None => owned(default_value),
    }
}

/// Whether `s` reads as "on".
pub fn is_truthy(s: &str) -> (r: bool)
    ensures
        r == spec_truthy(s@),
{
    let l = ascii_lowercase(s);
    let one = vec!['1'];
    let tru = vec!['t', 'r', 'u', 'e'];
    let yes = vec!['y', 'e', 's'];
    let y = vec!['y'];
    let on = vec!['o', 'n'];
    assert(one@ =~= seq!['1']);
    assert(tru@ =~= seq!['t', 'r', 'u', 'e']);
    assert(yes@ =~= seq!['y', 'e', 's']);
    assert(y@ =~= seq!['y']);
    assert(on@ =~= seq!['o', 'n']);
    chars_equal(&l, &one) || chars_equal(&l, &tru) || chars_equal(&l, &yes) || chars_equal(&l, &y)
        || chars_equal(&l, &on)
}

/// A switch: the default when absent, otherwise whether the value reads as "on".
pub fn bool_value(values: &ConfigValues, key: &str, default_value: bool) -> (r: bool)
    ensures
        r == spec_bool(values@, key@, default_value),
{
    match values.get(key) {
        None => default_value,
        Some(raw) => is_truthy(raw.as_str()),
    }
}

/// A number: the value when present and a valid `u64`, otherwise the default.
pub fn u64_value(values: &ConfigValues, key: &str, default_value: u64) -> (r: u64)
    ensures
        r == spec_u64(values@, key@, default_value),
{
    match values.get(key) {
        None => default_value,
        Some(raw) => match parse_u64(raw.as_str()) {
            Some(n) => n,
            None => default_value,
        },
    }
}

/// The text a switch is written as (`bool::to_string`).
pub open spec fn bool_text(b: bool) -> Seq<char> {
    if b {
        seq!['t', 'r', 'u', 'e']
    } else {
        seq!['f', 'a', 'l', 's', 'e']
    }
}

pub fn bool_to_text(b: bool) -> (r: String)
    ensures
        r@ == bool_text(b),
{
    let mut s = String::new();
    if b {
        push_char(&mut s, 't');
        push_char(&mut s, 'r');
        push_char(&mut s, 'u');
        push_char(&mut s, 'e');
    } else {
        push_char(&mut s, 'f');
        push_char(&mut s, 'a');
        push_char(&mut s, 'l');
        push_char(&mut s, 's');
        push_char(&mut s, 'e');
    }
    assert(s@ =~= bool_text(b));
    s
}

/// `m` with `k` set to `v` when there is a `v`.
pub open spec fn insert_opt(m: Settings, k: Seq<char>, v: Option<Seq<char>>) -> Settings {
    match v {
        Some(x) => m.insert(k, x),
        None => m,
    }
}

pub open spec fn opt_view(v: Option<String>) -> Option<Seq<char>> {
    match v {
        Some(s) => Some(s@),
        None => None,
    }
}

pub open spec fn opt_bool_text(v: Option<bool>) -> Option<Seq<char>> {
    match v {
        Some(b) => Some(bool_text(b)),
        None => None,
    }
}

pub open spec fn opt_decimal(v: Option<u64>) -> Option<Seq<char>> {
    match v {
        Some(n) => Some(spec_decimal(n as nat)),
        None => None,
    }
}

/// Sets `key` to `value` when there is one.
pub fn insert_optional(values: &mut ConfigValues, key: &str, value: Option<String>)
    ensures
        final(values)@ == insert_opt(old(values)@, key@, opt_view(value)),
{
    if let Some(value) = value {
        values.set(key, value);
    }
}

/// Sets `key` to `true` or `false` when there is a switch.
pub fn insert_optional_bool(values: &mut ConfigValues, key: &str, value: Option<bool>)
    ensures
        final(values)@ == insert_opt(old(values)@, key@, opt_bool_text(value)),
{
    if let Some(value) = value {
        values.set(key, bool_to_text(value));
    }
}

/// Sets `key` to a number's decimal text when there is a number.
pub fn insert_optional_u64(values: &mut ConfigValues, key: &str, value: Option<u64>)
    ensures
        final(values)@ == insert_opt(old(values)@, key@, opt_decimal(value)),
{
    if let Some(value) = value {
        values.set(key, decimal(value));
    }
}

/// A copy of an optional text.
pub fn clone_text(o: &Option<String>) -> (r: Option<String>)
    ensures
        r == *o,
{
    match o {
        Some(s) => Some(s.clone()),
        None => None,
    }
}

/// The settings a TOML configuration file can hold.
#[derive(Clone, Debug, Default)]
pub struct TomlConfig {
    pub link_id: Option<String>,
    pub secret_key: Option<String>,
    pub corp_num: Option<String>,
    pub user_id: Option<String>,
    pub is_test: Option<bool>,
    pub ip_restrict: Option<bool>,
    pub use_static_ip: Option<bool>,
    pub use_local_time: Option<bool>,
    pub use_ga_ip: Option<bool>,
    pub approval_url: Option<String>,
    pub approval_timeout_secs: Option<u64>,
    pub siren_status_url: Option<String>,
    pub siren_wait_secs: Option<u64>,
}

/// The settings that a TOML configuration gives, under their environment names.
pub open spec fn spec_toml_values(t: TomlConfig) -> Settings {
    let m = Map::<Seq<char>, Seq<char>>::empty();
    let m = insert_opt(m, KEY_LINK_ID@, opt_view(t.link_id));
    let m = insert_opt(m, KEY_SECRET_KEY@, opt_view(t.secret_key));
    let m = insert_opt(m, KEY_CORP_NUM@, opt_view(t.corp_num));
    let m = insert_opt(m, KEY_USER_ID@, opt_view(t.user_id));
    let m = insert_opt(m, KEY_IS_TEST@, opt_bool_text(t.is_test));
    let m = insert_opt(m, KEY_IP_RESTRICT@, opt_bool_text(t.ip_restrict));
    let m = insert_opt(m, KEY_USE_STATIC_IP@, opt_bool_text(t.use_static_ip));
    let m = insert_opt(m, KEY_USE_LOCAL_TIME@, opt_bool_text(t.use_local_time));
    let m = insert_opt(m, KEY_USE_GA_IP@, opt_bool_text(t.use_ga_ip));
    let m = insert_opt(m, KEY_APPROVAL_URL@, opt_view(t.approval_url));
    let m = insert_opt(m, KEY_APPROVAL_TIMEOUT@, opt_decimal(t.approval_timeout_secs));
    let m = insert_opt(m, KEY_SIREN_STATUS_URL@, opt_view(t.siren_status_url));
    insert_opt(m, KEY_SIREN_WAIT@, opt_decimal(t.siren_wait_secs))
}

/// The settings of a parsed TOML configuration file.
pub fn toml_values(parsed: &TomlConfig) -> (r: ConfigValues)
    ensures
        r@ == spec_toml_values(*parsed),
{
    let t = parsed;
    let mut values = ConfigValues::new();
    insert_optional(&mut values, KEY_LINK_ID, clone_text(&t.link_id));
    insert_optional(&mut values, KEY_SECRET_KEY, clone_text(&t.secret_key));
    insert_optional(&mut values, KEY_CORP_NUM, clone_text(&t.corp_num));
    insert_optional(&mut values, KEY_USER_ID, clone_text(&t.user_id));
    insert_optional_bool(&mut values, KEY_IS_TEST, t.is_test);
    insert_optional_bool(&mut values, KEY_IP_RESTRICT, t.ip_restrict);
    insert_optional_bool(&mut values, KEY_USE_STATIC_IP, t.use_static_ip);
    insert_optional_bool(&mut values, KEY_USE_LOCAL_TIME, t.use_local_time);
    insert_optional_bool(&mut values, KEY_USE_GA_IP, t.use_ga_ip);
    insert_optional(&mut values, KEY_APPROVAL_URL, clone_text(&t.approval_url));
    insert_optional_u64(&mut values, KEY_APPROVAL_TIMEOUT, t.approval_timeout_secs);
    insert_optional(&mut values, KEY_SIREN_STATUS_URL, clone_text(&t.siren_status_url));
    insert_optional_u64(&mut values, KEY_SIREN_WAIT, t.siren_wait_secs);
    values
}

/// The settings that the client runs with.
#[derive(Clone, Debug)]
pub struct Config {
    pub link_id: String,
    pub secret_key: String,
    pub corp_num: String,
    pub user_id: String,
    pub is_test: bool,
    pub ip_restrict: bool,
    pub use_static_ip: bool,
    pub use_local_time: bool,
    pub use_ga_ip: bool,
    pub approval_url: String,
    pub approval_timeout_secs: u64,
    pub siren_status_url: Option<String>,
    pub siren_wait_secs: u64,
}

/// The first required setting that is absent or blank, in the order
/// link ID, secret key, business number; then the user ID, which must be
/// present but is taken as it is, blank or not.
pub open spec fn spec_config_error(m: Settings) -> Option<(ConfigErrorKind, Seq<char>)> {
    if spec_required(m, KEY_LINK_ID@) is Err {
        Some((spec_required(m, KEY_LINK_ID@)->Err_0, KEY_LINK_ID@))
    } else if spec_required(m, KEY_SECRET_KEY@) is Err {
        Some((spec_required(m, KEY_SECRET_KEY@)->Err_0, KEY_SECRET_KEY@))
    } else if spec_required(m, KEY_CORP_NUM@) is Err {
        Some((spec_required(m, KEY_CORP_NUM@)->Err_0, KEY_CORP_NUM@))
    } else if !m.contains_key(KEY_USER_ID@) {
        Some((ConfigErrorKind::Missing, KEY_USER_ID@))
    } else {
        None
    }
}

/// The siren status URL: the first non-blank of its three setting names.
pub open spec fn spec_siren_url(m: Settings) -> Option<Seq<char>> {
    match spec_optional(m, KEY_SIREN_STATUS_URL@) {
        Some(v) => Some(v),
        None => match spec_optional(m, KEY_WARNING_LIGHT_URL@) {
            Some(v) => Some(v),
            None => spec_optional(m, KEY_SIREN_URL@),
        },
    }
}

/// Whether `c` is the configuration that the settings `m` describe.
pub open spec fn config_from(m: Settings, c: Config) -> bool {
    &&& spec_required(m, KEY_LINK_ID@) == Ok::<Seq<char>, ConfigErrorKind>(c.link_id@)
    &&& spec_required(m, KEY_SECRET_KEY@) == Ok::<Seq<char>, ConfigErrorKind>(c.secret_key@)
    &&& spec_required(m, KEY_CORP_NUM@) == Ok::<Seq<char>, ConfigErrorKind>(c.corp_num@)
    &&& m.contains_key(KEY_USER_ID@) && c.user_id@ == m[KEY_USER_ID@]
    &&& c.is_test == spec_bool(m, KEY_IS_TEST@, false)
    &&& c.ip_restrict == spec_bool(m, KEY_IP_RESTRICT@, true)
    &&& c.use_static_ip == spec_bool(m, KEY_USE_STATIC_IP@, false)
    &&& c.use_local_time == spec_bool(m, KEY_USE_LOCAL_TIME@, true)
    &&& c.use_ga_ip == spec_bool(m, KEY_USE_GA_IP@, false)
    &&& c.approval_url@ == match spec_optional(m, KEY_APPROVAL_URL@) {
        Some(v) => v,
        None => DEFAULT_APPROVAL_URL@,
    }
    &&& c.approval_timeout_secs == spec_u64(m, KEY_APPROVAL_TIMEOUT@, DEFAULT_APPROVAL_TIMEOUT_SECS)
    &&& opt_view(c.siren_status_url) == spec_siren_url(m)
    &&& c.siren_wait_secs == spec_u64(m, KEY_SIREN_WAIT@, DEFAULT_SIREN_WAIT_SECS)
}

/// The settings in force: the TOML file, overridden by the env file,
/// overridden by the `POPBILL_` process environment variables.
pub open spec fn spec_layers(
    toml: Settings,
    env_file: Settings,
    process_env: Seq<(Seq<char>, Seq<char>)>,
) -> Settings {
    toml.union_prefer_right(env_file).union_prefer_right(prefixed_map(process_env, ENV_PREFIX@))
}

/// `r` is the configuration of the settings `m`, or the error that the
/// first missing required setting gives.
pub open spec fn config_result(m: Settings, r: Result<Config, ConfigError>) -> bool {
    match spec_config_error(m) {
        Some((kind, key)) => r matches Err(e) && e.kind == kind && e.key@ == key,
        None => r matches Ok(c) && config_from(m, c),
    }
}

/// A copy of an optional text; the first of two when the first is present.
fn or_else_text(a: Option<String>, b: Option<String>) -> (r: Option<String>)
    ensures
        r == (if a is Some {
            a
        } else {
            b
        }),
{
    match a {
        Some(v) => Some(v),
        None => b,
    }
}

impl Config {
    /// The configuration that a set of settings describes.
    pub fn from_values(values: &ConfigValues) -> (r: Result<Config, ConfigError>)
        ensures
            config_result(values@, r),
    {
        let link_id = match required(values, KEY_LINK_ID) {
            Ok(v) => v,
            Err(e) => return Err(e),
        };
        let secret_key = match required(values, KEY_SECRET_KEY) {
            Ok(v) => v,
            Err(e) => return Err(e),
        };
        let corp_num = match required(values, KEY_CORP_NUM) {
            Ok(v) => v,
            Err(e) => return Err(e),
        };
        let user_id = match values.get(KEY_USER_ID) {
            Some(v) => v,
            None => return Err(ConfigError { kind: ConfigErrorKind::Missing, key: owned(KEY_USER_ID) }),
        };
        let siren_status_url = or_else_text(
            optional_value(values, KEY_SIREN_STATUS_URL),
            or_else_text(
                optional_value(values, KEY_WARNING_LIGHT_URL),
                optional_value(values, KEY_SIREN_URL),
            ),
        );
        Ok(Config {
            link_id,
            secret_key,
            corp_num,
            user_id,
            is_test: bool_value(values, KEY_IS_TEST, false),
            ip_restrict: bool_value(values, KEY_IP_RESTRICT, true),
            use_static_ip: bool_value(values, KEY_USE_STATIC_IP, false),
            use_local_time: bool_value(values, KEY_USE_LOCAL_TIME, true),
            use_ga_ip: bool_value(values, KEY_USE_GA_IP, false),
            approval_url: string_value(values, KEY_APPROVAL_URL, DEFAULT_APPROVAL_URL),
            approval_timeout_secs: u64_value(
                values,
                KEY_APPROVAL_TIMEOUT,
                DEFAULT_APPROVAL_TIMEOUT_SECS,
            ),
            siren_status_url,
            siren_wait_secs: u64_value(values, KEY_SIREN_WAIT, DEFAULT_SIREN_WAIT_SECS),
        })
    }

    /// Lays the three sources of settings over each other (the TOML file's,
    /// then the env file's, then the `POPBILL_` process environment
    /// variables) and reads the configuration from the result.
    pub fn load(
        toml: &ConfigValues,
        env_file: &ConfigValues,
        process_env: &Vec<(String, String)>,
    ) -> (r: Result<Config, ConfigError>)
        ensures
            config_result(spec_layers(toml@, env_file@, pairs_view(process_env@)), r),
    {
        let mut values = ConfigValues::new();
        values.overlay(toml);
        values.overlay(env_file);
        values.overlay_prefixed(process_env, ENV_PREFIX);
        assert(values@ =~= spec_layers(toml@, env_file@, pairs_view(process_env@)));
        Config::from_values(&values)
    }

    /// The Linkhub service ID: the test service when `is_test` is set.
    pub fn service_id(&self) -> (r: &'static str)
        ensures
            r@ == (if self.is_test {
                SERVICE_ID_TEST@
            } else {
                SERVICE_ID_REAL@
            }),
    {
        if self.is_test {
            SERVICE_ID_TEST
        } else {
            SERVICE_ID_REAL
        }
    }

    /// What may be shown of the configuration: masked link ID and business
    /// number, user ID, test flag; never the secret key.
    pub fn public(&self) -> (r: PublicConfig)
        requires
            spec_mask_defined(self.link_id@),
            spec_mask_defined(self.corp_num@),
        ensures
            r.link_id@ == spec_mask(self.link_id@),
            r.corp_num@ == spec_mask(self.corp_num@),
            r.user_id@ == self.user_id@,
            r.is_test == self.is_test,
    {
        PublicConfig {
            link_id: mask(self.link_id.as_str()),
            corp_num: mask(self.corp_num.as_str()),
            user_id: self.user_id.clone(),
            is_test: self.is_test,
        }
    }
}

/// The part of the configuration that is printed with every result.
#[derive(Clone, Debug)]
pub struct PublicConfig {
    pub link_id: String,
    pub corp_num: String,
    pub user_id: String,
    pub is_test: bool,
}

/// Whether `mask` can cut `v`: short values, or values whose fourth byte
/// from either end starts a character.
pub open spec fn spec_mask_defined(v: Seq<char>) -> bool {
    let b = encode_utf8(v);
    b.len() <= 8 || (is_char_boundary(b, 4) && is_char_boundary(b, b.len() - 4))
}

/// Whether `mask` can cut `value`.
pub fn can_mask(value: &str) -> (r: bool)
    ensures
        r == spec_mask_defined(value@),
{
    let n = value.as_bytes().len();
    n <= 8 || (value.is_char_boundary(4) && value.is_char_boundary(n - 4))
}

pub open spec fn eight_stars() -> Seq<char> {
    seq!['*', '*', '*', '*', '*', '*', '*', '*']
}

/// Eight stars for a value of at most 8 bytes; otherwise its first 4 bytes,
/// `...`, and its last 4 bytes.
pub open spec fn spec_mask(v: Seq<char>) -> Seq<char> {
    let b = encode_utf8(v);
    if b.len() <= 8 {
        eight_stars()
    } else {
        decode_utf8(b.take(4)) + seq!['.', '.', '.'] + decode_utf8(b.skip(b.len() - 4))
    }
}

/// `value` with all but its first and last four bytes hidden.
pub fn mask(value: &str) -> (r: String)
    requires
        spec_mask_defined(value@),
    ensures
        r@ == spec_mask(value@),
{
    let n = value.as_bytes().len();
    if n <= 8 {
        let mut s = String::new();
        let mut i: usize = 0;
        while i < 8
            invariant
                i <= 8,
                s@ == Seq::new(i as nat, |k: int| '*'),
            decreases 8 - i,
        {
            push_char(&mut s, '*');
            assert(s@ =~= Seq::new((i + 1) as nat, |k: int| '*'));
            i = i + 1;
        }
        assert(s@ =~= eight_stars());
        s
    } else {
        let (head, _) = value.split_at(4);
        let (_, tail) = value.split_at(n - 4);
        proof {
            encode_utf8_decode_utf8(head@);
            encode_utf8_decode_utf8(tail@);
            assert(value.spec_bytes().subrange(0, 4) =~= value.spec_bytes().take(4));
            assert(value.spec_bytes().subrange(n - 4, n as int) =~= value.spec_bytes().skip(n - 4));
        }
        let mut r = owned(head);
        push_char(&mut r, '.');
        push_char(&mut r, '.');
        push_char(&mut r, '.');
        r.append(tail);
        assert(r@ =~= spec_mask(value@));
        r
    }
}

/// The Linkhub authentication host.
pub open spec fn spec_linkhub_base(c: Config) -> Seq<char> {
    if c.use_ga_ip {
        "https://ga-auth.linkhub.co.kr"@
    } else if c.use_static_ip {
        "https://static-auth.linkhub.co.kr"@
    } else {
        "https://auth.linkhub.co.kr"@
    }
}

pub fn linkhub_base(config: &Config) -> (r: &'static str)
    ensures
        r@ == spec_linkhub_base(*config),
{
    if config.use_ga_ip {
        "https://ga-auth.linkhub.co.kr"
    } else if config.use_static_ip {
        "https://static-auth.linkhub.co.kr"
    } else {
        "https://auth.linkhub.co.kr"
    }
}

/// The Popbill API host: test or real, through the GA, static or default route.
pub open spec fn spec_popbill_base(c: Config) -> Seq<char> {
    if c.use_ga_ip {
        if c.is_test {
            "https://ga-popbill-test.linkhub.co.kr"@
        } else {
            "https://ga-popbill.linkhub.co.kr"@
        }
    } else if c.use_static_ip {
        if c.is_test {
            "https://static-popbill-test.linkhub.co.kr"@
        } else {
            "https://static-popbill.linkhub.co.kr"@
        }
    } else if c.is_test {
        "https://popbill-test.linkhub.co.kr"@
    } else {
        "https://popbill.linkhub.co.kr"@
    }
}

pub fn popbill_base(config: &Config) -> (r: &'static str)
    ensures
        r@ == spec_popbill_base(*config),
{
    if config.use_ga_ip {
        if config.is_test {
            "https://ga-popbill-test.linkhub.co.kr"
        } else {
            "https://ga-popbill.linkhub.co.kr"
        }
    } else if config.use_static_ip {
        if config.is_test {
            "https://static-popbill-test.linkhub.co.kr"
        } else {
            "https://static-popbill.linkhub.co.kr"
        }
    } else if config.is_test {
        "https://popbill-test.linkhub.co.kr"
    } else {
        "https://popbill.linkhub.co.kr"
    }
}

/// `a` followed by `b`.
pub fn join2(a: &str, b: &str) -> (r: String)
    ensures
        r@ == a@ + b@,
{
    let mut s = owned(a);
    s.append(b);
    s
}

/// The address of `path` on the Popbill API host.
pub fn popbill_url(config: &Config, path: &str) -> (r: String)
    ensures
        r@ == spec_popbill_base(*config) + path@,
{
    join2(popbill_base(config), path)
}

/// `s` without any trailing `/`.
pub open spec fn trim_end_slashes(s: Seq<char>) -> Seq<char>
    decreases s.len(),
{
    if s.len() > 0 && s.last() == '/' {
        trim_end_slashes(s.drop_last())
    } else {
        s
    }
}

/// The address of `path` on the approval server: its base URL, trimmed and
/// without trailing slashes, followed by `path`.
pub fn approval_url(config: &Config, path: &str) -> (r: String)
    ensures
        r@ == trim_end_slashes(spec_trim(config.approval_url@)) + path@,
{
    let base = trim(config.approval_url.as_str());
    let v = crate::text::chars_of(base);
    let mut j = v.len();
    assert(v@.take(j as int) =~= v@);
    while j > 0 && v[j - 1] == '/'
        invariant
            j <= v.len(),
            v@ == base@,
            trim_end_slashes(base@) == trim_end_slashes(v@.take(j as int)),
        decreases j,
    {
        assert(v@.take(j as int).drop_last() =~= v@.take(j - 1));
        j = j - 1;
    }
    let mut s = crate::text::string_from_range(&v, 0, j);
    assert(v@.subrange(0, j as int) =~= v@.take(j as int));
    s.append(path);
    s
}

/// How long the approval guard's HTTP client waits: the approval timeout
/// plus 15 seconds, saturating.
pub fn approval_client_timeout(config: &Config) -> (r: u64)
    ensures
        r == (if config.approval_timeout_secs + 15 > u64::MAX {
            u64::MAX as int
        } else {
            config.approval_timeout_secs + 15
        }),
{
    if config.approval_timeout_secs > u64::MAX - 15 {
        u64::MAX
    } else {
        config.approval_timeout_secs + 15
    }
}

proof fn lemma_bool_text_reads_back(b: bool)
    ensures
        spec_truthy(bool_text(b)) == b,
{
    if b {
        assert(spec_ascii_lowercase(bool_text(b)) =~= seq!['t', 'r', 'u', 'e']);
    } else {
        let l = spec_ascii_lowercase(bool_text(b));
        assert(l =~= seq!['f', 'a', 'l', 's', 'e']);
        assert(l.len() == 5);
        assert(l[0] == 'f');
    }
}

/// The switches and numbers of a TOML configuration file read back, once
/// written as settings, as the values the file gave, whatever default the
/// setting has.
pub proof fn law_toml_settings_read_back(t: TomlConfig, d: bool, n: u64)
    ensures
        t.is_test matches Some(b) ==> spec_bool(spec_toml_values(t), KEY_IS_TEST@, d) == b,
        t.ip_restrict matches Some(b) ==> spec_bool(spec_toml_values(t), KEY_IP_RESTRICT@, d) == b,
        t.use_static_ip matches Some(b) ==> spec_bool(spec_toml_values(t), KEY_USE_STATIC_IP@, d) == b,
        t.use_local_time matches Some(b) ==> spec_bool(spec_toml_values(t), KEY_USE_LOCAL_TIME@, d) == b,
        t.use_ga_ip matches Some(b) ==> spec_bool(spec_toml_values(t), KEY_USE_GA_IP@, d) == b,
        t.approval_timeout_secs matches Some(v) ==> spec_u64(spec_toml_values(t), KEY_APPROVAL_TIMEOUT@, n) == v,
        t.siren_wait_secs matches Some(v) ==> spec_u64(spec_toml_values(t), KEY_SIREN_WAIT@, n) == v,
{
    reveal_strlit("POPBILL_IS_TEST");
    reveal_strlit("POPBILL_IP_RESTRICT");
    reveal_strlit("POPBILL_USE_STATIC_IP");
    reveal_strlit("POPBILL_USE_LOCAL_TIME");
    reveal_strlit("POPBILL_USE_GA_IP");
    reveal_strlit("POPBILL_FAX_APPROVAL_URL");
    reveal_strlit("POPBILL_FAX_APPROVAL_TIMEOUT_SEC");
    reveal_strlit("POPBILL_FAX_SIREN_STATUS_URL");
    reveal_strlit("POPBILL_FAX_SIREN_WAIT_SEC");
    assert(KEY_IS_TEST@.len() == 15);
    assert(KEY_IP_RESTRICT@.len() == 19);
    assert(KEY_USE_STATIC_IP@.len() == 21);
    assert(KEY_USE_LOCAL_TIME@.len() == 22);
    assert(KEY_USE_GA_IP@.len() == 17);
    assert(KEY_APPROVAL_URL@.len() == 24);
    assert(KEY_APPROVAL_TIMEOUT@.len() == 32);
    assert(KEY_SIREN_STATUS_URL@.len() == 28);
    assert(KEY_SIREN_WAIT@.len() == 26);
    if let Some(b) = t.is_test {
        lemma_bool_text_reads_back(b);
    }
    if let Some(b) = t.ip_restrict {
        lemma_bool_text_reads_back(b);
    }
    if let Some(b) = t.use_static_ip {
        lemma_bool_text_reads_back(b);
    }
    if let Some(b) = t.use_local_time {
        lemma_bool_text_reads_back(b);
    }
    if let Some(b) = t.use_ga_ip {
        lemma_bool_text_reads_back(b);
    }
    if let Some(v) = t.approval_timeout_secs {
        crate::decimal::law_decimal_round_trip(v);
    }
    if let Some(v) = t.siren_wait_secs {
        crate::decimal::law_decimal_round_trip(v);
    }
}

/// Which source a setting comes from: a `POPBILL_` process environment
/// variable wins over the env file, which wins over the TOML file.
pub proof fn law_settings_precedence(
    toml: Settings,
    env_file: Settings,
    process_env: Seq<(Seq<char>, Seq<char>)>,
    k: Seq<char>,
)
    ensures
        ({
            let m = spec_layers(toml, env_file, process_env);
            let from_env = spec_starts_with(k, ENV_PREFIX@) && lookup(process_env, k) is Some;
            &&& m.contains_key(k) == (from_env || env_file.contains_key(k) || toml.contains_key(k))
            &&& from_env ==> m[k] == lookup(process_env, k)->0
            &&& !from_env && env_file.contains_key(k) ==> m[k] == env_file[k]
            &&& !from_env && !env_file.contains_key(k) && toml.contains_key(k) ==> m[k] == toml[k]
        }),
{
}

/// Each field of a configuration is read from its own setting alone: two
/// sets of settings that agree on a field's setting (for the siren URL, on
/// its three settings) give that field the same value.
pub proof fn law_each_field_reads_its_own_setting(m1: Settings, m2: Settings, c1: Config, c2: Config)
    requires
        config_from(m1, c1),
        config_from(m2, c2),
    ensures
        m1.get(KEY_LINK_ID@) == m2.get(KEY_LINK_ID@) ==> c1.link_id@ == c2.link_id@,
        m1.get(KEY_SECRET_KEY@) == m2.get(KEY_SECRET_KEY@) ==> c1.secret_key@ == c2.secret_key@,
        m1.get(KEY_CORP_NUM@) == m2.get(KEY_CORP_NUM@) ==> c1.corp_num@ == c2.corp_num@,
        m1.get(KEY_USER_ID@) == m2.get(KEY_USER_ID@) ==> c1.user_id@ == c2.user_id@,
        m1.get(KEY_IS_TEST@) == m2.get(KEY_IS_TEST@) ==> c1.is_test == c2.is_test,
        m1.get(KEY_IP_RESTRICT@) == m2.get(KEY_IP_RESTRICT@) ==> c1.ip_restrict == c2.ip_restrict,
        m1.get(KEY_USE_STATIC_IP@) == m2.get(KEY_USE_STATIC_IP@) ==> c1.use_static_ip
            == c2.use_static_ip,
        m1.get(KEY_USE_LOCAL_TIME@) == m2.get(KEY_USE_LOCAL_TIME@) ==> c1.use_local_time
            == c2.use_local_time,
        m1.get(KEY_USE_GA_IP@) == m2.get(KEY_USE_GA_IP@) ==> c1.use_ga_ip == c2.use_ga_ip,
        m1.get(KEY_APPROVAL_URL@) == m2.get(KEY_APPROVAL_URL@) ==> c1.approval_url@
            == c2.approval_url@,
        m1.get(KEY_APPROVAL_TIMEOUT@) == m2.get(KEY_APPROVAL_TIMEOUT@) ==> c1.approval_timeout_secs
            == c2.approval_timeout_secs,
        m1.get(KEY_SIREN_WAIT@) == m2.get(KEY_SIREN_WAIT@) ==> c1.siren_wait_secs
            == c2.siren_wait_secs,
        m1.get(KEY_SIREN_STATUS_URL@) == m2.get(KEY_SIREN_STATUS_URL@) && m1.get(
            KEY_WARNING_LIGHT_URL@,
        ) == m2.get(KEY_WARNING_LIGHT_URL@) && m1.get(KEY_SIREN_URL@) == m2.get(KEY_SIREN_URL@)
            ==> opt_view(c1.siren_status_url) == opt_view(c2.siren_status_url),
{
}

/// What a switch or a number of the configuration is, from its own setting:
/// an absent switch is off, except `ip_restrict` and `use_local_time`,
/// which are on; `true` turns it on and `false` off. An absent number is its
/// default; a number written in decimal is that number.
pub proof fn law_switches_and_numbers(m: Settings, c: Config, n: u64)
    requires
        config_from(m, c),
    ensures
        !m.contains_key(KEY_IS_TEST@) ==> !c.is_test,
        !m.contains_key(KEY_IP_RESTRICT@) ==> c.ip_restrict,
        !m.contains_key(KEY_USE_STATIC_IP@) ==> !c.use_static_ip,
        !m.contains_key(KEY_USE_LOCAL_TIME@) ==> c.use_local_time,
        !m.contains_key(KEY_USE_GA_IP@) ==> !c.use_ga_ip,
        m.get(KEY_IS_TEST@) == Some("true"@) ==> c.is_test,
        m.get(KEY_IS_TEST@) == Some("false"@) ==> !c.is_test,
        m.get(KEY_IP_RESTRICT@) == Some("true"@) ==> c.ip_restrict,
        m.get(KEY_IP_RESTRICT@) == Some("false"@) ==> !c.ip_restrict,
        m.get(KEY_USE_STATIC_IP@) == Some("true"@) ==> c.use_static_ip,
        m.get(KEY_USE_STATIC_IP@) == Some("false"@) ==> !c.use_static_ip,
        m.get(KEY_USE_LOCAL_TIME@) == Some("true"@) ==> c.use_local_time,
        m.get(KEY_USE_LOCAL_TIME@) == Some("false"@) ==> !c.use_local_time,
        m.get(KEY_USE_GA_IP@) == Some("true"@) ==> c.use_ga_ip,
        m.get(KEY_USE_GA_IP@) == Some("false"@) ==> !c.use_ga_ip,
        !m.contains_key(KEY_APPROVAL_TIMEOUT@) ==> c.approval_timeout_secs
            == DEFAULT_APPROVAL_TIMEOUT_SECS,
        !m.contains_key(KEY_SIREN_WAIT@) ==> c.siren_wait_secs == DEFAULT_SIREN_WAIT_SECS,
        m.get(KEY_APPROVAL_TIMEOUT@) == Some(spec_decimal(n as nat)) ==> c.approval_timeout_secs
            == n,
        m.get(KEY_SIREN_WAIT@) == Some(spec_decimal(n as nat)) ==> c.siren_wait_secs == n,
{
    reveal_strlit("true");
    reveal_strlit("false");
    assert("true"@ =~= bool_text(true));
    assert("false"@ =~= bool_text(false));
    lemma_bool_text_reads_back(true);
    lemma_bool_text_reads_back(false);
    crate::decimal::law_decimal_round_trip(n);
}

} // verus!
