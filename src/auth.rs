use vstd::prelude::*;
use crate::decimal::{i64_of_text, parse_i64};
use crate::dispatch::is_success;
use crate::error::{DispatchError, ErrorView};
use crate::json::{field_of, has_prefix, parse_json, parsed_json, text_field, text_of, Json};
use crate::encode::{dialect_for, dialect_of, header, headers_view, Dialect};
use crate::models::{opt_text, ModelProviderInfo};

verus! {

/// Seconds before its expiry from which a token counts as expired.
pub const VALIDITY_BUFFER_SECS: i64 = 300;

/// The token-exchange endpoint's answer.
#[derive(Debug, Clone)]
pub struct OAuthTokenResponse {
    pub token: String,
    /// Expiry, in seconds since the Unix epoch.
    pub expires_at: i64,
}

/// A short-lived bearer token and its expiry.
#[derive(Debug, Clone)]
pub struct GithubCopilotToken {
    pub api_key: String,
    /// Expiry, in seconds since the Unix epoch.
    pub expires_at: i64,
}

/// Whether a token expiring at `expires_at` is still usable at `now`:
/// `now` is before the expiry less the safety buffer.
pub open spec fn valid_at(expires_at: i64, now: i64) -> bool {
    (now as int) < (expires_at as int) - (VALIDITY_BUFFER_SECS as int)
}

/// First second that `chrono` represents: January 1 of year -262143.
pub const MIN_TIMESTAMP: i64 = -8334601228800;

/// Last second that `chrono` represents: December 31 of year 262142, 23:59:59.
pub const MAX_TIMESTAMP: i64 = 8210266876799;

/// Whether `chrono` can represent this many seconds since the epoch.
pub open spec fn timestamp_in_range(secs: int) -> bool {
    MIN_TIMESTAMP <= secs <= MAX_TIMESTAMP
}

/// Relies on `chrono::DateTime::<Utc>::from_timestamp(secs, 0)`, which
/// gives a date exactly for the seconds of years -262143 to 262142.
#[verifier::external_body]
fn timestamp_representable(secs: i64) -> (r: bool)
    ensures
        r == timestamp_in_range(secs as int),
{
    chrono::DateTime::from_timestamp(secs, 0).is_some()
}

/// Relies on `std::time::SystemTime::now` and `duration_since(UNIX_EPOCH)`:
/// the clock's whole seconds after the epoch (`Ok`) or before it (`Err`).
/// Nothing is promised of the reading.
#[verifier::external_body]
fn clock_reading() -> (r: Result<u64, u64>) {
    std::time::SystemTime::now()
        .duration_since(std::time::UNIX_EPOCH)
        .map(|d| d.as_secs())
        .map_err(|e| e.duration().as_secs())
}

/// Seconds since the epoch that a clock reading stands for.
pub open spec fn reading_seconds(reading: Result<u64, u64>) -> int {
    match reading {
        Ok(s) => s as int,
        Err(s) => -(s as int),
    }
}

/// Whether a token expiring at `expires_at` is still usable at `now`,
/// for any whole number of seconds `now`.
pub open spec fn valid_at_secs(expires_at: i64, now: int) -> bool {
    now < (expires_at as int) - (VALIDITY_BUFFER_SECS as int)
}

/// The detail of the error for an unrepresentable expiry.
pub open spec fn invalid_expiry_detail() -> Seq<char> {
    "Invalid expires_at timestamp"@
}

impl GithubCopilotToken {
    /// Whether the token is usable at `now` (seconds since the epoch).
    pub fn is_valid_at(&self, now: i64) -> (r: bool)
        ensures
            r == valid_at(self.expires_at, now),
    {
        self.expires_at >= i64::MIN + VALIDITY_BUFFER_SECS && now < self.expires_at
            - VALIDITY_BUFFER_SECS
    }

    /// Whether the token is usable at the time of a clock reading.
    pub fn is_valid_at_reading(&self, reading: Result<u64, u64>) -> (r: bool)
        ensures
            r == valid_at_secs(self.expires_at, reading_seconds(reading)),
    {
        let limit: i128 = self.expires_at as i128 - VALIDITY_BUFFER_SECS as i128;
        match reading {
            Ok(s) => (s as i128) < limit,
            Err(s) => -(s as i128) < limit,
        }
    }

    /// Whether the token is usable now, by the system clock: whatever the
    /// clock reads, before or after the epoch, the answer is the validity
    /// rule at that reading.
    pub fn is_valid(&self) -> (r: bool)
        ensures
            exists|reading: Result<u64, u64>|
                r == valid_at_secs(self.expires_at, reading_seconds(reading)),
    {
        let reading = clock_reading();
        self.is_valid_at_reading(reading)
    }

    /// The token that an exchange answer describes, if its expiry is a
    /// representable date.
    pub fn from_response(response: OAuthTokenResponse) -> (r: Result<Self, DispatchError>)
        ensures
            match r {
                Ok(t) => timestamp_in_range(response.expires_at as int) && t.api_key
                    == response.token && t.expires_at == response.expires_at,
                Err(e) => !timestamp_in_range(response.expires_at as int) && e@ == ErrorView::Auth(
                    invalid_expiry_detail(),
                ),
            },
    {
        if timestamp_representable(response.expires_at) {
            Ok(GithubCopilotToken { api_key: response.token, expires_at: response.expires_at })
        } else {
            Err(DispatchError::Auth(String::from_str("Invalid expires_at timestamp")))
        }
    }
}

/// The integer that a JSON value holds, when it is a number written as an
/// integer that fits in an `i64`.
pub open spec fn integer_of(j: Json) -> Option<i64> {
    match j {
        Json::Number(n) => i64_of_text(n@),
        _ => None,
    }
}

/// The exchange answer that a JSON document describes: a string `token`
/// and an integer `expires_at`.
pub open spec fn token_response_of(j: Json) -> Option<(Seq<char>, i64)> {
    match (text_field(j, "token"@), field_of(j, "expires_at"@)) {
        (Some(t), Some(e)) => match integer_of(e) {
            Some(secs) => Some((t, secs)),
            None => None,
        },
        _ => None,
    }
}

/// The text of the string member `key` of an object.
fn text_member(j: &Json, key: &str) -> (r: Option<String>)
    ensures
        opt_text(r) == text_field(*j, key@),
{
    match j.get_field(key) {
        Some(v) => match v.as_text() {
            Some(t) => Some(t.clone()),
            None => None,
        },
        None => None,
    }
}

/// Reads the exchange endpoint's answer out of its JSON document.
pub fn token_response_from(j: &Json) -> (r: Option<OAuthTokenResponse>)
    ensures
        match r {
            Some(resp) => token_response_of(*j) == Some((resp.token@, resp.expires_at)),
            None => token_response_of(*j).is_none(),
        },
{
    let token = text_member(j, "token");
    let expires = match j.get_field("expires_at") {
        Some(Json::Number(n)) => parse_i64(n.as_str()),
        _ => None,
    };
    match (token, expires) {
        (Some(t), Some(secs)) => Some(OAuthTokenResponse { token: t, expires_at: secs }),
        _ => None,
    }
}

/// The exchange answer that a JSON text describes.
pub open spec fn token_response_of_text(body: Seq<char>) -> Option<(Seq<char>, i64)> {
    match parsed_json(body) {
        Some(j) => token_response_of(j),
        None => None,
    }
}

/// Reads the exchange endpoint's JSON answer.
pub fn oauth_response_from_json(body: &str) -> (r: Option<OAuthTokenResponse>)
    ensures
        match r {
            Some(resp) => token_response_of_text(body@) == Some((resp.token@, resp.expires_at)),
            None => token_response_of_text(body@).is_none(),
        },
{
    match parse_json(body) {
        Some(j) => token_response_from(&j),
        None => None,
    }
}

/// The detail of the error for a token that is already past its buffer.
pub open spec fn expired_detail() -> Seq<char> {
    "GitHub Copilot token has expired, please refresh your login"@
}

/// The detail of the error for an unreadable exchange answer.
pub open spec fn malformed_detail() -> Seq<char> {
    "malformed token response"@
}

/// The detail of the error for a refused exchange.
pub open spec fn refused_detail(status_text: Seq<char>, body: Seq<char>) -> Seq<char> {
    "Failed to get GitHub Copilot API token. Status: "@ + status_text + ", Body: "@ + body
}

/// Outcome of a token exchange whose answer came with `status` (printed as
/// `status_text`) and `body`.
pub open spec fn exchange_result(status: u16, status_text: Seq<char>, body: Seq<char>) -> Result<
    (Seq<char>, i64),
    ErrorView,
> {
    if !is_success(status) {
        Err(ErrorView::Auth(refused_detail(status_text, body)))
    } else {
        match token_response_of_text(body) {
            Some((t, secs)) => if timestamp_in_range(secs as int) {
                Ok((t, secs))
            } else {
                Err(ErrorView::Auth(invalid_expiry_detail()))
            },
            None => Err(ErrorView::Auth(malformed_detail())),
        }
    }
}

/// Turns the exchange endpoint's answer into a token. `status_text` is the
/// status as the transport prints it, kept for the error.
pub fn token_from_exchange(status: u16, status_text: &str, body: &str) -> (r: Result<
    GithubCopilotToken,
    DispatchError,
>)
    ensures
        match r {
            Ok(t) => exchange_result(status, status_text@, body@) == Ok::<
                (Seq<char>, i64),
                ErrorView,
            >((t.api_key@, t.expires_at)),
            Err(e) => exchange_result(status, status_text@, body@) == Err::<
                (Seq<char>, i64),
                ErrorView,
            >(e@),
        },
{
    if !(200 <= status && status <= 299) {
        let detail = String::from_str("Failed to get GitHub Copilot API token. Status: ").concat(
            status_text,
        ).concat(", Body: ").concat(body);
        return Err(DispatchError::Auth(detail));
    }
    match oauth_response_from_json(body) {
        Some(resp) => GithubCopilotToken::from_response(resp),
        None => Err(DispatchError::Auth(String::from_str("malformed token response"))),
    }
}

/// Refuses a freshly obtained token that is already inside its safety
/// buffer at `now`.
pub fn require_unexpired(token: GithubCopilotToken, now: i64) -> (r: Result<
    GithubCopilotToken,
    DispatchError,
>)
    ensures
        match r {
            Ok(t) => valid_at(token.expires_at, now) && t == token,
            Err(e) => !valid_at(token.expires_at, now) && e@ == ErrorView::UnexpectedStatus(
                401,
                expired_detail(),
            ),
        },
{
    if token.is_valid_at(now) {
        Ok(token)
    } else {
        Err(
            DispatchError::UnexpectedStatus(
                401,
                String::from_str("GitHub Copilot token has expired, please refresh your login"),
            ),
        )
    }
}

/// The detail of a credential failure, as the streaming call reports it.
pub open spec fn token_failure_detail(detail: Seq<char>) -> Seq<char> {
    "Failed to get GitHub Copilot token: "@ + detail
}

/// Reports a failed token exchange from the streaming call: an `Auth`
/// detail gains the call's prefix; other errors pass unchanged.
pub fn exchange_failure(e: DispatchError) -> (r: DispatchError)
    ensures
        r@ == match e@ {
            ErrorView::Auth(d) => ErrorView::Auth(token_failure_detail(d)),
            other => other,
        },
{
    match e {
        DispatchError::Auth(d) => DispatchError::Auth(
            String::from_str("Failed to get GitHub Copilot token: ").concat(d.as_str()),
        ),
        other => other,
    }
}

/// The endpoint that exchanges an OAuth secret for an API token.
pub open spec fn token_endpoint() -> Seq<char> {
    "https://api.github.com/copilot_internal/v2/token"@
}

/// The headers of a token exchange with OAuth secret `oauth`.
pub open spec fn token_request_headers(oauth: Seq<char>) -> Seq<(Seq<char>, Seq<char>)> {
    seq![
        ("Authorization"@, "token "@ + oauth),
        ("Accept"@, "application/json"@),
        ("User-Agent"@, "GithubCopilot/1.155.0"@),
        ("editor-version"@, "Neovim/0.6.1"@),
        ("editor-plugin-version"@, "copilot.vim/1.16.0"@),
    ]
}

/// A token-exchange request: a GET of `url` with `headers`, in order.
#[derive(Debug, Clone)]
pub struct TokenRequest {
    pub url: String,
    pub headers: Vec<(String, String)>,
}

/// The token-exchange request for OAuth secret `oauth`.
pub fn token_exchange_request(oauth: &str) -> (r: TokenRequest)
    ensures
        r.url@ == token_endpoint(),
        headers_view(r.headers@) == token_request_headers(oauth@),
{
    let mut headers: Vec<(String, String)> = Vec::new();
    let auth = String::from_str("token ").concat(oauth);
    headers.push((String::from_str("Authorization"), auth));
    headers.push(header("Accept", "application/json"));
    headers.push(header("User-Agent", "GithubCopilot/1.155.0"));
    headers.push(header("editor-version", "Neovim/0.6.1"));
    headers.push(header("editor-plugin-version", "copilot.vim/1.16.0"));
    assert(headers_view(headers@) =~= token_request_headers(oauth@));
    TokenRequest {
        url: String::from_str("https://api.github.com/copilot_internal/v2/token"),
        headers,
    }
}

/// Host keys that may hold the OAuth token start with this.
pub open spec fn host_prefix() -> Seq<char> {
    "github.com"@
}

/// The `oauth_token` of the first entry whose key starts with the host
/// prefix and that holds one.
pub open spec fn prefixed_token(entries: Seq<(String, Json)>) -> Option<Seq<char>>
    decreases entries.len(),
{
    if entries.len() == 0 {
        None
    } else if host_prefix().is_prefix_of(entries[0].0@) && text_field(
        entries[0].1,
        "oauth_token"@,
    ).is_some() {
        text_field(entries[0].1, "oauth_token"@)
    } else {
        prefixed_token(entries.drop_first())
    }
}

/// The OAuth token that a hosts document holds: the first prefixed entry's,
/// else the one under the exact host key.
pub open spec fn hosts_token(j: Json) -> Option<Seq<char>> {
    match j {
        Json::Object(entries) => match prefixed_token(entries@) {
            Some(t) => Some(t),
            None => match field_of(j, host_prefix()) {
                Some(h) => text_field(h, "oauth_token"@),
                None => None,
            },
        },
        _ => None,
    }
}

/// Finds the OAuth token in a parsed hosts document.
pub fn hosts_token_from(j: &Json) -> (r: Option<String>)
    ensures
        opt_text(r) == hosts_token(*j),
{
    match j {
        Json::Object(entries) => {
            let mut i: usize = 0;
            assert(entries@.subrange(0, entries@.len() as int) =~= entries@);
            while i < entries.len()
                invariant
                    i <= entries@.len(),
                    *j == Json::Object(*entries),
                    prefixed_token(entries@) == prefixed_token(
                        entries@.subrange(i as int, entries@.len() as int),
                    ),
                decreases entries.len() - i,
            {
                let ghost rest = entries@.subrange(i as int, entries@.len() as int);
                assert(rest.drop_first() =~= entries@.subrange(i + 1, entries@.len() as int));
                assert(rest[0] == entries@[i as int]);
                if has_prefix(entries[i].0.as_str(), "github.com") {
                    let found = text_member(&entries[i].1, "oauth_token");
                    if found.is_some() {
                        assert(prefixed_token(rest) == opt_text(found));
                        return found;
                    }
                }
                i = i + 1;
            }
            assert(entries@.subrange(i as int, entries@.len() as int) =~= Seq::<
                (String, Json),
            >::empty());
            match j.get_field("github.com") {
                Some(h) => text_member(h, "oauth_token"),
                None => None,
            }
        },
        _ => None,
    }
}

/// Finds the OAuth token in the text of a hosts file.
pub fn oauth_token_from_hosts_json(contents: &str) -> (r: Option<String>)
    ensures
        opt_text(r) == match parsed_json(contents@) {
            Some(j) => hosts_token(j),
            None => None,
        },
{
    match parse_json(contents) {
        Some(j) => hosts_token_from(&j),
        None => None,
    }
}

/// A token given through the environment counts only when it is not empty.
pub fn env_oauth_token(value: Option<String>) -> (r: Option<String>)
    ensures
        opt_text(r) == match value {
            Some(v) => if v@.len() > 0 {
                Some(v@)
            } else {
                None
            },
            None => None,
        },
{
    match value {
        Some(v) => if v.as_str().unicode_len() > 0 {
            Some(v)
        } else {
            None
        },
        None => None,
    }
}

/// How a call obtains its bearer credential.
#[derive(Debug)]
pub enum Credential {
    /// Authorize with this bearer value.
    Key(String),
    /// Send without authorization.
    Anonymous,
    /// Exchange a local OAuth secret for a fresh token first.
    Exchange,
}

/// Model of a `Credential`.
pub enum CredentialView {
    Key(Seq<char>),
    Anonymous,
    Exchange,
}

impl View for Credential {
    type V = CredentialView;

    open spec fn view(&self) -> CredentialView {
        match self {
            Credential::Key(k) => CredentialView::Key(k@),
            Credential::Anonymous => CredentialView::Anonymous,
            Credential::Exchange => CredentialView::Exchange,
        }
    }
}

/// Whether a provider needs a bearer token when it has no static key: it
/// says so, or it speaks the vendor-gated dialect, which always does.
pub open spec fn needs_token(provider: ModelProviderInfo) -> bool {
    provider.requires_external_token || dialect_for(provider.name@) == Dialect::Copilot
}

/// The credential rule: a static key wins; a provider that needs no token
/// goes without; a cached token still valid at `now` is reused; otherwise
/// a fresh token must be obtained.
pub open spec fn credential_for(
    provider: ModelProviderInfo,
    cached: Option<GithubCopilotToken>,
    now: i64,
) -> CredentialView {
    match provider.api_key {
        Some(k) => CredentialView::Key(k@),
        None => if !needs_token(provider) {
            CredentialView::Anonymous
        } else {
            match cached {
                Some(t) => if valid_at(t.expires_at, now) {
                    CredentialView::Key(t.api_key@)
                } else {
                    CredentialView::Exchange
                },
                None => CredentialView::Exchange,
            }
        },
    }
}

/// Resolves the bearer credential of one call, before its first send.
pub fn resolve_credential(
    provider: &ModelProviderInfo,
    cached: &Option<GithubCopilotToken>,
    now: i64,
) -> (r: Credential)
    ensures
        r@ == credential_for(*provider, *cached, now),
{
    match &provider.api_key {
        Some(k) => Credential::Key(k.clone()),
        None => {
            if !(provider.requires_external_token || dialect_of(provider) == Dialect::Copilot) {
                Credential::Anonymous
            } else {
                match cached {
                    Some(t) => if t.is_valid_at(now) {
                        Credential::Key(t.api_key.clone())
                    } else {
                        Credential::Exchange
                    },
                    None => Credential::Exchange,
                }
            }
        },
    }
}

/// The safety buffer: a token is valid exactly while more than the buffer
/// remains before its expiry. So one expiring four minutes from now is
/// invalid and one expiring ten minutes from now is valid.
pub proof fn lemma_validity_buffer(expires_at: i64, now: i64)
    ensures
        valid_at(expires_at, now) <==> (expires_at as int) - (now as int) > VALIDITY_BUFFER_SECS,
        (expires_at as int) == (now as int) + 240 ==> !valid_at(expires_at, now),
        (expires_at as int) == (now as int) + 600 ==> valid_at(expires_at, now),
{
}

} // verus!
