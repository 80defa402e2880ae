//! Linkhub authentication: the signed token request, and the headers that
//! Popbill and Linkhub calls carry.
use vstd::prelude::*;
use vstd::string::StringSliceAdditionalSpecFns;
use vstd::utf8::encode_utf8;
use crate::config::{join2, linkhub_base, spec_linkhub_base, Config, SERVICE_ID_REAL, SERVICE_ID_TEST};
use crate::crypto::{
    base64_decode, base64_decoded, base64_encode, base64_of, format_utc_date,
    format_utc_timestamp, hmac_sha256, hmac_sha256_of, json_quote, json_string_text, sha256,
    sha256_of, utc_date_text, utc_timestamp_text,
};
use crate::text::{chars_of, owned, string_from_range};
use crate::values::pairs_view;

verus! {

pub const LINKHUB_VERSION: &'static str = "2.0";
pub const POPBILL_VERSION: &'static str = "1.0";
pub const LINKHUB_USER_AGENT: &'static str = "RUST LINKHUB SDK";
pub const POPBILL_USER_AGENT: &'static str = "RUST POPBILL SDK";

/// Why a token request could not be made.
#[derive(Clone, Copy, PartialEq, Eq, Structural, Debug)]
pub enum TokenError {
    /// The request body could not be written (JSON quoting of a string
    /// does not fail, so this does not arise).
    BodyNotWritten,
    /// `POPBILL_SECRET_KEY must be base64`.
    SecretKeyNotBase64,
    /// `failed to initialize HMAC` (HMAC takes keys of any length, so this
    /// does not arise).
    HmacInit,
}

/// The body of a token request: the business number as access ID, and the
/// fax scopes.
pub open spec fn spec_token_body(corp_num: Seq<char>) -> Seq<char> {
    "{\"access_id\":"@ + json_string_text(corp_num) + ",\"scope\":[\"member\",\"160\",\"161\"]}"@
}

/// The body of a token request, given the business number written as a
/// JSON string.
pub fn token_body_from_quoted(quoted_corp_num: &str) -> (r: String)
    ensures
        r@ == "{\"access_id\":"@ + quoted_corp_num@ + ",\"scope\":[\"member\",\"160\",\"161\"]}"@,
{
    let mut body = owned("{\"access_id\":");
    body.append(quoted_corp_num);
    body.append(",\"scope\":[\"member\",\"160\",\"161\"]}");
    body
}

pub fn token_body(corp_num: &str) -> (r: Result<String, TokenError>)
    ensures
        r matches Ok(b) && b@ == spec_token_body(corp_num@),
{
    match json_quote(corp_num) {
        Err(_) => Err(TokenError::BodyNotWritten),
        Ok(quoted) => Ok(token_body_from_quoted(quoted.as_str())),
    }
}

/// The base64 SHA-256 digest of the UTF-8 bytes of `input`.
pub fn b64_sha256(input: &str) -> (r: String)
    ensures
        r@ == base64_of(sha256_of(encode_utf8(input@))),
{
    let digest = sha256(input.as_bytes());
    base64_encode(digest.as_slice())
}

/// The key that a secret key stands for: its base64 decoding.
pub open spec fn secret_key_bytes(secret_key: Seq<char>) -> Option<Seq<u8>> {
    base64_decoded(encode_utf8(secret_key))
}

/// The base64 HMAC-SHA256 signature of `target` under the base64 secret key.
pub fn b64_hmac_sha256(secret_key: &str, target: &str) -> (r: Result<String, TokenError>)
    ensures
        match secret_key_bytes(secret_key@) {
            None => r == Err::<String, TokenError>(TokenError::SecretKeyNotBase64),
            Some(key) => r matches Ok(s) && s@ == base64_of(
                hmac_sha256_of(key, encode_utf8(target@)),
            ),
        },
{
    let key = match base64_decode(secret_key.as_bytes()) {
        Ok(k) => k,
        Err(_) => return Err(TokenError::SecretKeyNotBase64),
    };
    match hmac_sha256(key.as_slice(), target.as_bytes()) {
        Ok(tag) => Ok(base64_encode(tag.as_slice())),
        Err(_) => Err(TokenError::HmacInit),
    }
}

/// The text that a token request signs: method, body digest, call time,
/// `*` when calls may come from any address, protocol version, and path,
/// one per line.
pub open spec fn spec_hmac_target(
    body_hash: Seq<char>,
    call_dt: Seq<char>,
    ip_restrict: bool,
    uri: Seq<char>,
) -> Seq<char> {
    "POST\n"@ + body_hash + "\n"@ + call_dt + "\n"@ + (if ip_restrict {
        Seq::<char>::empty()
    } else {
        "*\n"@
    }) + LINKHUB_VERSION@ + "\n"@ + uri
}

pub fn hmac_target(body_hash: &str, call_dt: &str, ip_restrict: bool, uri: &str) -> (r: String)
    ensures
        r@ == spec_hmac_target(body_hash@, call_dt@, ip_restrict, uri@),
{
    let mut t = owned("POST\n");
    t.append(body_hash);
    t.append("\n");
    t.append(call_dt);
    t.append("\n");
    let ghost before = t@;
    if !ip_restrict {
        t.append("*\n");
    }
    assert(t@ =~= before + (if ip_restrict {
        Seq::<char>::empty()
    } else {
        "*\n"@
    }));
    t.append(LINKHUB_VERSION);
    t.append("\n");
    t.append(uri);
    t
}

pub open spec fn spec_service_id(c: Config) -> Seq<char> {
    if c.is_test {
        SERVICE_ID_TEST@
    } else {
        SERVICE_ID_REAL@
    }
}

/// The token path: `/{service ID}/Token`.
pub open spec fn spec_token_uri(c: Config) -> Seq<char> {
    "/"@ + spec_service_id(c) + "/Token"@
}

pub fn token_uri(config: &Config) -> (r: String)
    ensures
        r@ == spec_token_uri(*config),
{
    let mut u = join2("/", config.service_id());
    u.append("/Token");
    u
}

pub type Headers = Seq<(Seq<char>, Seq<char>)>;

/// The headers of a token request.
pub open spec fn spec_token_headers(c: Config, call_dt: Seq<char>, signature: Seq<char>) -> Headers {
    seq![
        ("x-lh-date"@, call_dt),
        ("x-lh-version"@, LINKHUB_VERSION@),
        ("content-type"@, "Application/json"@),
        ("user-agent"@, LINKHUB_USER_AGENT@),
    ] + (if c.ip_restrict {
        Seq::<(Seq<char>, Seq<char>)>::empty()
    } else {
        seq![("x-lh-forwarded"@, "*"@)]
    }) + seq![("authorization"@, "LINKHUB "@ + c.link_id@ + " "@ + signature)]
}

fn push_header(headers: &mut Vec<(String, String)>, name: &str, value: String)
    ensures
        pairs_view(final(headers)@) == pairs_view(old(headers)@).push((name@, value@)),
{
    let ghost before = pairs_view(headers@);
    headers.push((owned(name), value));
    assert(pairs_view(headers@) =~= before.push((name@, value@)));
}

pub fn token_headers(config: &Config, call_dt: &str, signature: &str) -> (r: Vec<(String, String)>)
    ensures
        pairs_view(r@) == spec_token_headers(*config, call_dt@, signature@),
{
    let mut h: Vec<(String, String)> = Vec::new();
    push_header(&mut h, "x-lh-date", owned(call_dt));
    push_header(&mut h, "x-lh-version", owned(LINKHUB_VERSION));
    push_header(&mut h, "content-type", owned("Application/json"));
    push_header(&mut h, "user-agent", owned(LINKHUB_USER_AGENT));
    let ghost mid = pairs_view(h@);
    if !config.ip_restrict {
        push_header(&mut h, "x-lh-forwarded", owned("*"));
    }
    let ghost mid2 = pairs_view(h@);
    assert(mid2 =~= mid + (if config.ip_restrict {
        Seq::<(Seq<char>, Seq<char>)>::empty()
    } else {
        seq![("x-lh-forwarded"@, "*"@)]
    }));
    let mut auth = join2("LINKHUB ", config.link_id.as_str());
    auth.append(" ");
    auth.append(signature);
    push_header(&mut h, "authorization", auth);
    assert(pairs_view(h@) =~= spec_token_headers(*config, call_dt@, signature@));
    h
}

/// A token request, ready to be sent by `POST`.
pub struct TokenRequest {
    pub url: String,
    pub headers: Vec<(String, String)>,
    pub body: String,
}

/// The signature of a token request with the given body and call time.
pub open spec fn spec_token_signature(c: Config, body: Seq<char>, call_dt: Seq<char>) -> Seq<char> {
    base64_of(
        hmac_sha256_of(
            secret_key_bytes(c.secret_key@)->0,
            encode_utf8(
                spec_hmac_target(
                    base64_of(sha256_of(encode_utf8(body))),
                    call_dt,
                    c.ip_restrict,
                    spec_token_uri(c),
                ),
            ),
        ),
    )
}

/// The token request for `config` at the call time `call_dt`: its body,
/// its signed headers, and the token address on the Linkhub host.
pub fn token_request(config: &Config, call_dt: &str) -> (r: Result<TokenRequest, TokenError>)
    ensures
        match secret_key_bytes(config.secret_key@) {
            None => r == Err::<TokenRequest, TokenError>(TokenError::SecretKeyNotBase64),
            Some(_) => r matches Ok(t) && {
                &&& t.body@ == spec_token_body(config.corp_num@)
                &&& t.url@ == spec_linkhub_base(*config) + spec_token_uri(*config)
                &&& pairs_view(t.headers@) == spec_token_headers(
                    *config,
                    call_dt@,
                    spec_token_signature(*config, t.body@, call_dt@),
                )
            },
        },
{
    let body = match token_body(config.corp_num.as_str()) {
        Ok(b) => b,
        Err(e) => {
            return Err(e);
        },
    };
    let uri = token_uri(config);
    let target = hmac_target(b64_sha256(body.as_str()).as_str(), call_dt, config.ip_restrict, uri.as_str());
    let signature = match b64_hmac_sha256(config.secret_key.as_str(), target.as_str()) {
        Ok(s) => s,
        Err(e) => return Err(e),
    };
    let headers = token_headers(config, call_dt, signature.as_str());
    let url = join2(linkhub_base(config), uri.as_str());
    Ok(TokenRequest { url, headers, body })
}

/// Where the call time of a token request comes from.
pub enum CallTimeSource {
    /// This machine's clock.
    Local,
    /// The Linkhub time service at this address.
    Server(String),
}

/// The local clock when `use_local_time` is set, else the Linkhub `/Time` service.
pub fn call_time_source(config: &Config) -> (r: CallTimeSource)
    ensures
        config.use_local_time ==> r is Local,
        !config.use_local_time ==> (r matches CallTimeSource::Server(u) && u@ == spec_linkhub_base(
            *config,
        ) + "/Time"@),
{
    if config.use_local_time {
        CallTimeSource::Local
    } else {
        CallTimeSource::Server(join2(linkhub_base(config), "/Time"))
    }
}

/// The call time from this machine's clock, `now_secs` seconds after the epoch.
pub fn local_call_time(now_secs: i64) -> (r: Option<String>)
    ensures
        match utc_timestamp_text(now_secs) {
            Some(t) => r matches Some(s) && s@ == t,
            None => r is None,
        },
{
    format_utc_timestamp(now_secs)
}

/// Today's date, written `YYYYMMDD`, `now_secs` seconds after the epoch.
pub fn today_yyyymmdd(now_secs: i64) -> (r: Option<String>)
    ensures
        match utc_date_text(now_secs) {
            Some(t) => r matches Some(s) && s@ == t,
            None => r is None,
        },
{
    format_utc_date(now_secs)
}

/// `s` without any leading `c`.
pub open spec fn trim_start_char(s: Seq<char>, c: char) -> Seq<char>
    decreases s.len(),
{
    if s.len() > 0 && s[0] == c {
        trim_start_char(s.drop_first(), c)
    } else {
        s
    }
}

/// `s` without any trailing `c`.
pub open spec fn trim_end_char(s: Seq<char>, c: char) -> Seq<char>
    decreases s.len(),
{
    if s.len() > 0 && s.last() == c {
        trim_end_char(s.drop_last(), c)
    } else {
        s
    }
}

/// The call time that the Linkhub time service answered with: its text
/// without surrounding double quotes (`trim_matches('"')`).
pub fn server_call_time(text: &str) -> (r: String)
    ensures
        r@ == trim_end_char(trim_start_char(text@, '"'), '"'),
{
    let v = chars_of(text);
    let n = v.len();
    let mut i: usize = 0;
    assert(v@.subrange(0, n as int) =~= v@);
    while i < n && v[i] == '"'
        invariant
            i <= n == v.len(),
            v@ == text@,
            trim_start_char(text@, '"') == trim_start_char(v@.subrange(i as int, n as int), '"'),
        decreases n - i,
    {
        assert(v@.subrange(i as int, n as int).drop_first() =~= v@.subrange(i + 1, n as int));
        i = i + 1;
    }
    let mut j = n;
    while j > i && v[j - 1] == '"'
        invariant
            i <= j <= n == v.len(),
            trim_start_char(text@, '"') == v@.subrange(i as int, n as int),
            trim_end_char(v@.subrange(i as int, n as int), '"') == trim_end_char(
                v@.subrange(i as int, j as int),
                '"',
            ),
        decreases j - i,
    {
        assert(v@.subrange(i as int, j as int).drop_last() =~= v@.subrange(i as int, j - 1));
        j = j - 1;
    }
    string_from_range(&v, i, j)
}

/// A session token as Linkhub issues it.
#[derive(Clone, Debug)]
pub struct LinkhubToken {
    pub session_token: String,
    pub service_id_upper: Option<String>,
    pub service_id_lower: Option<String>,
}

/// The headers of a Popbill API call.
pub open spec fn spec_popbill_headers(c: Config, t: LinkhubToken) -> Headers {
    seq![
        ("x-pb-version"@, POPBILL_VERSION@),
        ("authorization"@, "Bearer "@ + t.session_token@),
        ("x-pb-userid"@, c.user_id@),
        ("accept-encoding"@, "gzip,deflate"@),
        ("user-agent"@, POPBILL_USER_AGENT@),
    ]
}

pub fn popbill_headers(config: &Config, token: &LinkhubToken) -> (r: Vec<(String, String)>)
    ensures
        pairs_view(r@) == spec_popbill_headers(*config, *token),
{
    let mut h: Vec<(String, String)> = Vec::new();
    push_header(&mut h, "x-pb-version", owned(POPBILL_VERSION));
    push_header(&mut h, "authorization", join2("Bearer ", token.session_token.as_str()));
    push_header(&mut h, "x-pb-userid", config.user_id.clone());
    push_header(&mut h, "accept-encoding", owned("gzip,deflate"));
    push_header(&mut h, "user-agent", owned(POPBILL_USER_AGENT));
    assert(pairs_view(h@) =~= spec_popbill_headers(*config, *token));
    h
}

/// The service ID of a Linkhub call: the token's `serviceID`, else its
/// `serviceId`, else the configured one.
pub open spec fn spec_token_service_id(c: Config, t: LinkhubToken) -> Seq<char> {
    match t.service_id_upper {
        Some(s) => s@,
        None => match t.service_id_lower {
            Some(s) => s@,
            None => spec_service_id(c),
        },
    }
}

/// A Linkhub account call (such as `Point`): its address and headers.
pub fn linkhub_call(config: &Config, token: &LinkhubToken, endpoint: &str) -> (r: (
    String,
    Vec<(String, String)>,
))
    ensures
        r.0@ == spec_linkhub_base(*config) + "/"@ + spec_token_service_id(*config, *token) + "/"@
            + endpoint@,
        pairs_view(r.1@) == seq![
            ("authorization"@, "Bearer "@ + token.session_token@),
            ("user-agent"@, LINKHUB_USER_AGENT@),
        ],
{
    let service_id = match &token.service_id_upper {
        Some(s) => s.clone(),
        None => match &token.service_id_lower {
            Some(s) => s.clone(),
            None => owned(config.service_id()),
        },
    };
    let mut url = join2(linkhub_base(config), "/");
    url.append(service_id.as_str());
    url.append("/");
    url.append(endpoint);
    let mut h: Vec<(String, String)> = Vec::new();
    push_header(&mut h, "authorization", join2("Bearer ", token.session_token.as_str()));
    push_header(&mut h, "user-agent", owned(LINKHUB_USER_AGENT));
    assert(pairs_view(h@) =~= seq![
        ("authorization"@, "Bearer "@ + token.session_token@),
        ("user-agent"@, LINKHUB_USER_AGENT@),
    ]);
    (url, h)
}

/// The signature of a token request covers what its headers say: it is the
/// HMAC, under the decoded secret key, of the method, the body's digest, the
/// call time sent as `x-lh-date`, a `*` line exactly when the request
/// carries `x-lh-forwarded: *`, the protocol version and the token path.
pub proof fn law_token_signature_covers_headers(c: Config, body: Seq<char>, call_dt: Seq<char>)
    ensures
        ({
            let sig = spec_token_signature(c, body, call_dt);
            let h = spec_token_headers(c, call_dt, sig);
            let forwarded = h.contains(("x-lh-forwarded"@, "*"@));
            &&& h.contains(("x-lh-date"@, call_dt))
            &&& forwarded <==> !c.ip_restrict
            &&& sig == base64_of(
                hmac_sha256_of(
                    secret_key_bytes(c.secret_key@)->0,
                    encode_utf8(
                        "POST\n"@ + base64_of(sha256_of(encode_utf8(body))) + "\n"@ + call_dt + "\n"@
                            + (if forwarded {
                            "*\n"@
                        } else {
                            Seq::<char>::empty()
                        }) + LINKHUB_VERSION@ + "\n"@ + spec_token_uri(c),
                    ),
                ),
            )
        }),
{
    let sig = spec_token_signature(c, body, call_dt);
    let h = spec_token_headers(c, call_dt, sig);
    reveal_strlit("x-lh-date");
    reveal_strlit("x-lh-version");
    reveal_strlit("content-type");
    reveal_strlit("user-agent");
    reveal_strlit("x-lh-forwarded");
    reveal_strlit("authorization");
    reveal_strlit("*");
    assert(h[0] == ("x-lh-date"@, call_dt));
    if c.ip_restrict {
        assert(h.len() == 5);
        assert forall|i: int| 0 <= i < h.len() implies h[i] != ("x-lh-forwarded"@, "*"@) by {
            assert(h[i].0.len() != 14);
        }
    } else {
        assert(h[4] == ("x-lh-forwarded"@, "*"@));
    }
}

} // verus!
