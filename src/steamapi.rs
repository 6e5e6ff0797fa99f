//! The decisions of the Steam web login / two-factor / enrollment protocol:
//! what each request carries, how a Session is derived, and how responses are read.
//! Sending the requests and keeping the cookie jar is left to the caller.
use vstd::prelude::*;

use crate::account::SteamGuardAccount;
use crate::outside::{cookie_pair_of, json_field_of, json_field_view, parse_cookie_pair, read_json_field, JsonField};
use crate::text::{decimal_of, decimal_string, parse_u64, u64_of};

verus! {

/// Failures of the protocol client.
#[derive(Debug, Clone, PartialEq, Eq)]
pub enum ApiError {
    /// A transfer login was asked for, but the response carried neither
    /// `transfer_urls` nor `transfer_parameters`.
    MissingTransferData,
    /// The response carried `transfer_urls` but no `transfer_parameters`.
    MissingTransferParameters,
    /// The response carried `transfer_parameters` but no `transfer_urls`.
    MissingTransferUrls,
    /// The steam id of an OAuth payload is not a decimal `u64`.
    InvalidSteamId,
    /// The cookie jar holds no cookie named `sessionid`.
    MissingSessionCookie,
    /// The request needs a Session and the client has none.
    NotLoggedIn,
    /// A response is not JSON.
    MalformedJson,
    /// A response lacks the named field, or it has another type than expected.
    BadField(String),
}

/// Authenticated tokens and cookies needed to act as a logged-in Steam user.
#[derive(Debug, Clone)]
pub struct Session {
    pub session_id: String,
    pub steam_login: String,
    pub steam_login_secure: String,
    pub web_cookie: String,
    pub token: String,
    pub steam_id: u64,
}

/// Token bundle from a login response or from transfer parameters.
#[derive(Debug, Clone)]
pub struct OAuthData {
    pub oauth_token: String,
    pub steamid: String,
    pub wgtoken: String,
    pub wgtoken_secure: String,
    pub webcookie: String,
}

/// What a login response asks to relay to the transfer URLs.
#[derive(Debug, Clone)]
pub struct LoginTransferParameters {
    pub steamid: String,
    pub token_secure: String,
    pub auth: String,
    pub remember_login: bool,
    pub webcookie: String,
}

/// The answer to a login attempt.
#[derive(Debug, Clone)]
pub struct LoginResponse {
    pub success: bool,
    pub login_complete: bool,
    pub captcha_needed: bool,
    pub captcha_gid: String,
    pub emailsteamid: u64,
    pub emailauth_needed: bool,
    pub requires_twofactor: bool,
    pub message: String,
    pub oauth: Option<OAuthData>,
    pub transfer_urls: Option<Vec<String>>,
    pub transfer_parameters: Option<LoginTransferParameters>,
}

/// The RSA key that a password is encrypted with before login.
#[derive(Debug, Clone)]
pub struct RsaResponse {
    pub success: bool,
    pub publickey_exp: String,
    pub publickey_mod: String,
    pub timestamp: String,
    pub token_gid: String,
}

/// The answer to an AddAuthenticator request.
#[derive(Debug, Clone)]
pub struct AddAuthenticatorResponse {
    pub response: AddAuthenticatorResponseInner,
}

#[derive(Debug, Clone)]
pub struct AddAuthenticatorResponseInner {
    /// Shared secret between server and authenticator
    pub shared_secret: String,
    /// Authenticator serial number (unique per token)
    pub serial_number: String,
    /// code used to revoke authenticator
    pub revocation_code: String,
    /// URI for QR code generation
    pub uri: String,
    /// Current server time
    pub server_time: u64,
    /// Account name to display on token client
    pub account_name: String,
    /// Token GID assigned by server
    pub token_gid: String,
    /// Secret used for identity attestation (e.g., for eventing)
    pub identity_secret: String,
    /// Spare shared secret
    pub secret_1: String,
    /// Result code
    pub status: String,
}

/// Form fields of a request, in the order they are sent.
pub type FormParams = Vec<(String, String)>;

pub open spec fn form_view(v: Seq<(String, String)>) -> Seq<(Seq<char>, Seq<char>)> {
    v.map_values(|p: (String, String)| (p.0@, p.1@))
}

impl LoginResponse {
    pub fn needs_transfer_login(&self) -> (r: bool)
        ensures
            r == (self.transfer_urls is Some || self.transfer_parameters is Some),
    {
        self.transfer_urls.is_some() || self.transfer_parameters.is_some()
    }
}

// ---------------------------------------------------------------------------
// Session derivation

/// The value of one cookie string if it is the cookie named `sessionid`.
pub open spec fn session_cookie_in(seg: Seq<char>) -> Option<Seq<char>> {
    match cookie_pair_of(seg) {
        Some((name, value)) => if name == "sessionid"@ {
            Some(value)
        } else {
            None
        },
        None => None,
    }
}

/// Scans a `;`-separated cookie header from position `i`, the current cookie
/// having begun at `start`, for the first cookie named `sessionid`.
pub open spec fn session_id_scan(s: Seq<char>, start: int, i: int) -> Option<Seq<char>>
    decreases s.len() - i,
{
    if i >= s.len() {
        session_cookie_in(s.subrange(start, s.len() as int))
    } else if s[i] == ';' {
        match session_cookie_in(s.subrange(start, i)) {
            Some(v) => Some(v),
            None => session_id_scan(s, i + 1, i + 1),
        }
    } else {
        session_id_scan(s, start, i + 1)
    }
}

/// The value of the first cookie named `sessionid` in a cookie header.
pub open spec fn session_id_of(header: Seq<char>) -> Option<Seq<char>> {
    session_id_scan(header, 0, 0)
}

fn session_cookie_value(seg: &str) -> (r: Option<String>)
    ensures
        match r {
            Some(v) => session_cookie_in(seg@) == Some(v@),
            None => session_cookie_in(seg@) is None,
        },
{
    match parse_cookie_pair(seg) {
        Some((name, value)) => {
            if name == String::from_str("sessionid") {
                Some(value)
            } else {
                None
            }
        },
        None => None,
    }
}

/// Finds the value of the cookie named `sessionid` in a cookie header
/// (`name=value` pairs separated by `;`).
pub fn extract_session_id(header: &str) -> (r: Option<String>)
    ensures
        match r {
            Some(v) => session_id_of(header@) == Some(v@),
            None => session_id_of(header@) is None,
        },
{
    let n = header.unicode_len();
    let mut start: usize = 0;
    let mut i: usize = 0;
    while i < n
        invariant
            start <= i <= n,
            n == header@.len(),
            session_id_scan(header@, start as int, i as int) == session_id_of(header@),
        decreases n - i,
    {
        if header.get_char(i) == ';' {
            let seg = header.substring_char(start, i);
            match session_cookie_value(seg) {
                Some(v) => {
                    return Some(v);
                },
                None => {},
            }
            start = i + 1;
        }
        i = i + 1;
    }
    let seg = header.substring_char(start, n);
    session_cookie_value(seg)
}

/// `steam_login` and `steam_login_secure` are the steam id and a token joined by
/// a percent-encoded `||`.
pub open spec fn login_token(steamid: Seq<char>, token: Seq<char>) -> Seq<char> {
    steamid + "%7C%7C"@ + token
}

/// The Session built from an OAuth payload and the session id of the cookie jar.
pub open spec fn session_matches(s: Session, data: OAuthData, session_id: Seq<char>) -> bool {
    &&& Some(s.steam_id) == u64_of(data.steamid@)
    &&& s.session_id@ == session_id
    &&& s.steam_login@ == login_token(data.steamid@, data.wgtoken@)
    &&& s.steam_login_secure@ == login_token(data.steamid@, data.wgtoken_secure@)
    &&& s.token@ == data.oauth_token@
    &&& s.web_cookie@ == data.webcookie@
}

fn login_token_string(steamid: &String, token: &String) -> (r: String)
    ensures
        r@ == login_token(steamid@, token@),
{
    steamid.clone().concat("%7C%7C").concat(token.as_str())
}

/// Derives a Session from an OAuth payload and the client's cookie header.
/// Fails where the steam id is not a decimal `u64`, and else where no cookie
/// named `sessionid` is in the header.
pub fn build_session(data: &OAuthData, cookie_header: &str) -> (r: Result<Session, ApiError>)
    ensures
        match r {
            Ok(s) => session_id_of(cookie_header@) is Some && session_matches(
                s,
                *data,
                session_id_of(cookie_header@)->Some_0,
            ),
            Err(e) => if u64_of(data.steamid@) is None {
                e == ApiError::InvalidSteamId
            } else {
                session_id_of(cookie_header@) is None && e == ApiError::MissingSessionCookie
            },
        },
{
    let steam_id = match parse_u64(data.steamid.as_str()) {
        Some(id) => id,
        None => {
            return Err(ApiError::InvalidSteamId);
        },
    };
    let session_id = match extract_session_id(cookie_header) {
        Some(id) => id,
        None => {
            return Err(ApiError::MissingSessionCookie);
        },
    };
    Ok(
        Session {
            token: data.oauth_token.clone(),
            steam_id,
            steam_login: login_token_string(&data.steamid, &data.wgtoken),
            steam_login_secure: login_token_string(&data.steamid, &data.wgtoken_secure),
            session_id,
            web_cookie: data.webcookie.clone(),
        },
    )
}

/// The Session a login response leads to: none without an OAuth payload, else
/// the one derived from it (or the failure of that derivation).
pub fn session_after_login(resp: &LoginResponse, cookie_header: &str) -> (r: Result<
    Option<Session>,
    ApiError,
>)
    ensures
        resp.oauth is None ==> r == Ok::<Option<Session>, ApiError>(None),
        resp.oauth matches Some(data) ==> match r {
            Ok(s) => s matches Some(t) && session_id_of(cookie_header@) is Some && session_matches(
                t,
                data,
                session_id_of(cookie_header@)->Some_0,
            ),
            Err(e) => if u64_of(data.steamid@) is None {
                e == ApiError::InvalidSteamId
            } else {
                session_id_of(cookie_header@) is None && e == ApiError::MissingSessionCookie
            },
        },
{
    match &resp.oauth {
        Some(data) => match build_session(data, cookie_header) {
            Ok(s) => Ok(Some(s)),
            Err(e) => Err(e),
        },
        None => Ok(None),
    }
}

// ---------------------------------------------------------------------------
// Transfer login

/// The transfer step needs both the URLs and the parameters; each missing part
/// has its own failure.
pub fn transfer_plan(resp: LoginResponse) -> (r: Result<
    (Vec<String>, LoginTransferParameters),
    ApiError,
>)
    ensures
        match (resp.transfer_urls, resp.transfer_parameters) {
            (Some(urls), Some(params)) => r == Ok::<_, ApiError>((urls, params)),
            (None, None) => r == Err::<(Vec<String>, LoginTransferParameters), _>(
                ApiError::MissingTransferData,
            ),
            (Some(_), None) => r == Err::<(Vec<String>, LoginTransferParameters), _>(
                ApiError::MissingTransferParameters,
            ),
            (None, Some(_)) => r == Err::<(Vec<String>, LoginTransferParameters), _>(
                ApiError::MissingTransferUrls,
            ),
        },
{
    match (resp.transfer_urls, resp.transfer_parameters) {
        (Some(urls), Some(params)) => Ok((urls, params)),
        (None, None) => Err(ApiError::MissingTransferData),
        (Some(_), None) => Err(ApiError::MissingTransferParameters),
        (None, Some(_)) => Err(ApiError::MissingTransferUrls),
    }
}

/// The OAuth payload that a transfer login stands for. The secure token is
/// used as the plain token too: the protocol gives no other, and whether the
/// server accepts it there has not been confirmed.
pub fn oauth_from_transfer(params: &LoginTransferParameters) -> (r: OAuthData)
    ensures
        r.oauth_token@ == params.auth@,
        r.steamid@ == params.steamid@,
        r.wgtoken@ == params.token_secure@,
        r.wgtoken_secure@ == params.token_secure@,
        r.webcookie@ == params.webcookie@,
{
    OAuthData {
        oauth_token: params.auth.clone(),
        steamid: params.steamid.clone(),
        wgtoken: params.token_secure.clone(),
        wgtoken_secure: params.token_secure.clone(),
        webcookie: params.webcookie.clone(),
    }
}

// ---------------------------------------------------------------------------
// Reading responses

/// The string under a key of a JSON text, where the text is JSON and the
/// field is a string.
pub open spec fn json_string_field(text: Seq<char>, key: Seq<char>) -> Option<Seq<char>> {
    match json_field_of(text, key) {
        Some(Some((_, _, Some(v)))) => Some(v),
        _ => None,
    }
}

fn string_field(text: &str, key: &str) -> (r: Result<String, ApiError>)
    ensures
        match r {
            Ok(v) => json_string_field(text@, key@) == Some(v@),
            Err(e) => json_string_field(text@, key@) is None && (e == ApiError::MalformedJson
                || (e matches ApiError::BadField(k) && k@ == key@)),
        },
{
    match read_json_field(text, key) {
        Ok(Some((_, _, Some(v)))) => Ok(v),
        Ok(_) => Err(ApiError::BadField(String::from_str(key))),
        Err(_) => Err(ApiError::MalformedJson),
    }
}

/// The OAuth payload that a JSON text holds: an object whose fields
/// `oauth_token`, `steamid`, `wgtoken`, `wgtoken_secure` and `webcookie` are strings.
pub open spec fn oauth_in(text: Seq<char>) -> Option<
    (Seq<char>, Seq<char>, Seq<char>, Seq<char>, Seq<char>),
> {
    match (
        json_string_field(text, "oauth_token"@),
        json_string_field(text, "steamid"@),
        json_string_field(text, "wgtoken"@),
        json_string_field(text, "wgtoken_secure"@),
        json_string_field(text, "webcookie"@),
    ) {
        (Some(a), Some(b), Some(c), Some(d), Some(e)) => Some((a, b, c, d, e)),
        _ => None,
    }
}

pub open spec fn oauth_view(o: OAuthData) -> (Seq<char>, Seq<char>, Seq<char>, Seq<char>, Seq<char>) {
    (o.oauth_token@, o.steamid@, o.wgtoken@, o.wgtoken_secure@, o.webcookie@)
}

/// Decodes an OAuth payload from its JSON text.
pub fn oauth_data_from_string(text: &str) -> (r: Result<OAuthData, ApiError>)
    ensures
        match r {
            Ok(o) => oauth_in(text@) == Some(oauth_view(o)),
            Err(_) => oauth_in(text@) is None,
        },
{
    let oauth_token = match string_field(text, "oauth_token") {
        Ok(v) => v,
        Err(e) => {
            return Err(e);
        },
    };
    let steamid = match string_field(text, "steamid") {
        Ok(v) => v,
        Err(e) => {
            return Err(e);
        },
    };
    let wgtoken = match string_field(text, "wgtoken") {
        Ok(v) => v,
        Err(e) => {
            return Err(e);
        },
    };
    let wgtoken_secure = match string_field(text, "wgtoken_secure") {
        Ok(v) => v,
        Err(e) => {
            return Err(e);
        },
    };
    let webcookie = match string_field(text, "webcookie") {
        Ok(v) => v,
        Err(e) => {
            return Err(e);
        },
    };
    Ok(OAuthData { oauth_token, steamid, wgtoken, wgtoken_secure, webcookie })
}

/// Reads the OAuth payload of a login response. The response carries it as a
/// string of JSON under `oauth`, which is decoded in a second pass; a response
/// without it (or with `null` there) has none.
pub fn login_oauth(text: &str) -> (r: Result<Option<OAuthData>, ApiError>)
    ensures
        json_field_of(text@, "oauth"@) is None ==> r == Err::<Option<OAuthData>, ApiError>(
            ApiError::MalformedJson,
        ),
        json_field_of(text@, "oauth"@) == Some(
            None::<(Option<bool>, Option<i64>, Option<Seq<char>>)>,
        ) ==> r == Ok::<Option<OAuthData>, ApiError>(None),
        json_string_field(text@, "oauth"@) matches Some(inner) ==> match r {
            Ok(Some(o)) => oauth_in(inner) == Some(oauth_view(o)),
            Ok(None) => false,
            Err(_) => oauth_in(inner) is None,
        },
        r matches Ok(Some(_)) ==> json_string_field(text@, "oauth"@) is Some,
        r matches Ok(None) ==> json_field_of(text@, "oauth"@) == Some(
            None::<(Option<bool>, Option<i64>, Option<Seq<char>>)>,
        ),
{
    match read_json_field(text, "oauth") {
        Ok(None) => Ok(None),
        Ok(Some((_, _, Some(inner)))) => match oauth_data_from_string(inner.as_str()) {
            Ok(o) => Ok(Some(o)),
            Err(e) => Err(e),
        },
        Ok(Some(_)) => Err(ApiError::BadField(String::from_str("oauth"))),
        Err(_) => Err(ApiError::MalformedJson),
    }
}

/// What a phoneajax response says: the `has_phone` field where it is there,
/// else the `success` field, else `false`. A field that is there but is no
/// boolean is named as the failure.
pub open spec fn phoneajax_answer(
    has_phone: Option<(Option<bool>, Option<i64>, Option<Seq<char>>)>,
    success: Option<(Option<bool>, Option<i64>, Option<Seq<char>>)>,
) -> Result<bool, Seq<char>> {
    match has_phone {
        Some((b, _, _)) => match b {
            Some(x) => Ok(x),
            None => Err("has_phone"@),
        },
        None => match success {
            Some((b, _, _)) => match b {
                Some(x) => Ok(x),
                None => Err("success"@),
            },
            None => Ok(false),
        },
    }
}

pub open spec fn answer_matches(r: Result<bool, ApiError>, a: Result<bool, Seq<char>>) -> bool {
    match a {
        Ok(x) => r == Ok::<bool, ApiError>(x),
        Err(k) => r matches Err(ApiError::BadField(f)) && f@ == k,
    }
}

/// Decides a phoneajax answer from the response's `has_phone` and `success` fields.
pub fn phoneajax_outcome(has_phone: &JsonField, success: &JsonField) -> (r: Result<bool, ApiError>)
    ensures
        answer_matches(r, phoneajax_answer(json_field_view(*has_phone), json_field_view(*success))),
{
    match has_phone {
        Some((b, _, _)) => match b {
            Some(x) => Ok(*x),
            None => Err(ApiError::BadField(String::from_str("has_phone"))),
        },
        None => match success {
            Some((b, _, _)) => match b {
                Some(x) => Ok(*x),
                None => Err(ApiError::BadField(String::from_str("success"))),
            },
            None => Ok(false),
        },
    }
}

/// Reads a phoneajax response text.
pub fn phoneajax_result(text: &str) -> (r: Result<bool, ApiError>)
    ensures
        match (json_field_of(text@, "has_phone"@), json_field_of(text@, "success"@)) {
            (Some(h), Some(s)) => answer_matches(r, phoneajax_answer(h, s)),
            _ => r == Err::<bool, ApiError>(ApiError::MalformedJson),
        },
{
    let has_phone = match read_json_field(text, "has_phone") {
        Ok(f) => f,
        Err(_) => {
            return Err(ApiError::MalformedJson);
        },
    };
    let success = match read_json_field(text, "success") {
        Ok(f) => f,
        Err(_) => {
            return Err(ApiError::MalformedJson);
        },
    };
    phoneajax_outcome(&has_phone, &success)
}

// ---------------------------------------------------------------------------
// Request parameters

fn pair(k: &str, v: &str) -> (r: (String, String))
    ensures
        r.0@ == k@,
        r.1@ == v@,
{
    (String::from_str(k), String::from_str(v))
}

/// The form of a phoneajax request: operation, argument and session id;
/// `check_sms_code` adds two fixed fields.
pub open spec fn phoneajax_form(op: Seq<char>, arg: Seq<char>, session_id: Seq<char>) -> Seq<
    (Seq<char>, Seq<char>),
> {
    seq![("op"@, op), ("arg"@, arg), ("sessionid"@, session_id)] + if op == "check_sms_code"@ {
        seq![("checkfortos"@, "0"@), ("skipvoip"@, "1"@)]
    } else {
        Seq::empty()
    }
}

/// The form of a phoneajax request; it needs a Session.
pub fn phoneajax_params(op: &str, arg: &str, session: &Option<Session>) -> (r: Result<
    FormParams,
    ApiError,
>)
    ensures
        match session {
            None => r == Err::<FormParams, ApiError>(ApiError::NotLoggedIn),
            Some(s) => r matches Ok(v) && form_view(v@) == phoneajax_form(op@, arg@, s.session_id@),
        },
{
    let s = match session {
        Some(s) => s,
        None => {
            return Err(ApiError::NotLoggedIn);
        },
    };
    let mut v: FormParams = Vec::new();
    v.push(pair("op", op));
    v.push(pair("arg", arg));
    v.push(pair("sessionid", s.session_id.as_str()));
    if String::from_str(op) == String::from_str("check_sms_code") {
        v.push(pair("checkfortos", "0"));
        v.push(pair("skipvoip", "1"));
    }
    assert(form_view(v@) =~= phoneajax_form(op@, arg@, s.session_id@));
    Ok(v)
}

/// The form of an AddAuthenticator request.
pub open spec fn add_authenticator_form(s: Session, device_id: Seq<char>) -> Seq<
    (Seq<char>, Seq<char>),
> {
    seq![
        ("access_token"@, s.token@),
        ("steamid"@, decimal_of(s.steam_id as nat)),
        ("authenticator_type"@, "1"@),
        ("device_identifier"@, device_id),
        ("sms_phone_id"@, "1"@),
    ]
}

/// The form of an AddAuthenticator request; it needs a Session.
pub fn add_authenticator_params(session: &Option<Session>, device_id: &str) -> (r: Result<
    FormParams,
    ApiError,
>)
    ensures
        match session {
            None => r == Err::<FormParams, ApiError>(ApiError::NotLoggedIn),
            Some(s) => r matches Ok(v) && form_view(v@) == add_authenticator_form(*s, device_id@),
        },
{
    let s = match session {
        Some(s) => s,
        None => {
            return Err(ApiError::NotLoggedIn);
        },
    };
    let steam_id = decimal_string(s.steam_id);
    let mut v: FormParams = Vec::new();
    v.push(pair("access_token", s.token.as_str()));
    v.push(pair("steamid", steam_id.as_str()));
    v.push(pair("authenticator_type", "1"));
    v.push(pair("device_identifier", device_id));
    v.push(pair("sms_phone_id", "1"));
    assert(form_view(v@) =~= add_authenticator_form(*s, device_id@));
    Ok(v)
}

/// The credentials and challenge answers of one login attempt.
pub struct LoginForm<'a> {
    pub username: &'a str,
    pub encrypted_password: &'a str,
    pub twofactor_code: &'a str,
    pub email_code: &'a str,
    pub captcha_gid: &'a str,
    pub captcha_text: &'a str,
    pub rsa_timestamp: &'a str,
}

/// The form of a login request at `now_secs` seconds after the Unix epoch.
pub open spec fn login_form(f: LoginForm, now_secs: u64) -> Seq<(Seq<char>, Seq<char>)> {
    seq![
        ("donotcache"@, decimal_of((now_secs * 1000) as nat)),
        ("username"@, f.username@),
        ("password"@, f.encrypted_password@),
        ("twofactorcode"@, f.twofactor_code@),
        ("emailauth"@, f.email_code@),
        ("captchagid"@, f.captcha_gid@),
        ("captcha_text"@, f.captcha_text@),
        ("rsatimestamp"@, f.rsa_timestamp@),
        ("remember_login"@, "true"@),
        ("oauth_client_id"@, "DE45CD61"@),
        ("oauth_scope"@, "read_profile write_profile read_client write_client"@),
    ]
}

/// The form of a login request; `donotcache` is the time in milliseconds.
pub fn login_params(f: &LoginForm, now_secs: u64) -> (r: FormParams)
    requires
        now_secs <= u64::MAX / 1000,
    ensures
        form_view(r@) == login_form(*f, now_secs),
{
    let millis = decimal_string(now_secs * 1000);
    let mut v: FormParams = Vec::new();
    v.push(pair("donotcache", millis.as_str()));
    v.push(pair("username", f.username));
    v.push(pair("password", f.encrypted_password));
    v.push(pair("twofactorcode", f.twofactor_code));
    v.push(pair("emailauth", f.email_code));
    v.push(pair("captchagid", f.captcha_gid));
    v.push(pair("captcha_text", f.captcha_text));
    v.push(pair("rsatimestamp", f.rsa_timestamp));
    v.push(pair("remember_login", "true"));
    v.push(pair("oauth_client_id", "DE45CD61"));
    v.push(pair("oauth_scope", "read_profile write_profile read_client write_client"));
    assert(form_view(v@) =~= login_form(*f, now_secs));
    v
}

impl AddAuthenticatorResponse {
    /// The enrolled account's secrets, not yet fully enrolled, with no device id,
    /// steam id or Session yet.
    pub fn to_steam_guard_account(&self) -> (r: SteamGuardAccount)
        ensures
            r.shared_secret@ == self.response.shared_secret@,
            r.serial_number@ == self.response.serial_number@,
            r.revocation_code@ == self.response.revocation_code@,
            r.uri@ == self.response.uri@,
            r.server_time == self.response.server_time,
            r.account_name@ == self.response.account_name@,
            r.token_gid@ == self.response.token_gid@,
            r.identity_secret@ == self.response.identity_secret@,
            r.secret_1@ == self.response.secret_1@,
            !r.fully_enrolled,
            r.device_id@.len() == 0,
            r.steam_id == 0,
            r.session is None,
    {
        SteamGuardAccount {
            shared_secret: self.response.shared_secret.clone(),
            serial_number: self.response.serial_number.clone(),
            revocation_code: self.response.revocation_code.clone(),
            uri: self.response.uri.clone(),
            server_time: self.response.server_time,
            account_name: self.response.account_name.clone(),
            token_gid: self.response.token_gid.clone(),
            identity_secret: self.response.identity_secret.clone(),
            secret_1: self.response.secret_1.clone(),
            fully_enrolled: false,
            device_id: String::new(),
            steam_id: 0,
            session: None,
        }
    }
}

} // verus!
