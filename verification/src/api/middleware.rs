//! Request checking: the identifier given to every request, and the errors
//! of authentication and rate limiting.

use crate::ledger::{first_where, lemma_first_where_is, names};
use crate::text::{join, join3, render_decimal};
use vstd::prelude::*;
use vstd::slice::*;
use vstd::string::*;

verus! {

/// Why a request was not authenticated.
#[derive(Debug, PartialEq, Eq)]
pub enum AuthError {
    MissingApiKey,
    InvalidApiKey,
    ExpiredApiKey,
    InactiveApiKey,
    DatabaseError(String),
}

impl AuthError {
    /// The error as shown to a reader.
    pub open spec fn text(self) -> Seq<char> {
        match self {
            AuthError::MissingApiKey => "API key is required"@,
            AuthError::InvalidApiKey => "Invalid API key"@,
            AuthError::ExpiredApiKey => "API key has expired"@,
            AuthError::InactiveApiKey => "API key is inactive"@,
            AuthError::DatabaseError(m) => "Database error: "@ + m@,
        }
    }

    /// The HTTP status of the error: 403 for an inactive key, 500 for a
    /// database failure, 401 otherwise.
    pub open spec fn status(self) -> u16 {
        match self {
            AuthError::InactiveApiKey => 403,
            AuthError::DatabaseError(_) => 500,
            _ => 401,
        }
    }

    /// The error as shown to a reader.
    pub fn to_string(&self) -> (r: String)
        ensures
            r@ == self.text(),
    {
        match self {
            AuthError::MissingApiKey => String::from_str("API key is required"),
            AuthError::InvalidApiKey => String::from_str("Invalid API key"),
            AuthError::ExpiredApiKey => String::from_str("API key has expired"),
            AuthError::InactiveApiKey => String::from_str("API key is inactive"),
            AuthError::DatabaseError(m) => join("Database error: ", m.as_str()),
        }
    }

    /// The HTTP status of the error.
    pub fn status_code(&self) -> (r: u16)
        ensures
            r == self.status(),
    {
        match self {
            AuthError::InactiveApiKey => 403,
            AuthError::DatabaseError(_) => 500,
            _ => 401,
        }
    }
}

/// What is known of an API key once a request has shown it.
#[derive(Debug, Clone)]
pub struct ApiKeyInfo {
    pub id: i64,
    pub name: String,
    pub description: Option<String>,
    /// Instants are milliseconds since the epoch.
    pub created_at: i64,
    pub expires_at: Option<i64>,
    pub last_used_at: Option<i64>,
    pub is_active: bool,
    pub rate_limit_per_minute: i32,
    pub permissions: Vec<String>,
}

/// An API key as it is stored: with the hash of the key, and with the
/// permissions as a JSON list of strings.
#[derive(Debug, Clone)]
pub struct StoredApiKey {
    pub id: Option<i64>,
    pub key_hash: String,
    pub name: String,
    pub description: Option<String>,
    pub created_at: i64,
    pub expires_at: Option<i64>,
    pub last_used_at: Option<i64>,
    pub is_active: bool,
    pub rate_limit_per_minute: i64,
    pub permissions: String,
}

/// Whether bcrypt verifies the key `api_key` against the hash `key_hash`.
pub uninterp spec fn bcrypt_accepts(api_key: Seq<char>, key_hash: Seq<char>) -> bool;

/// Whether `api_key` is the key that `key_hash` was made from.
///
/// Calls `bcrypt::verify`, which splits the hash into cost, salt and digest,
/// hashes the key with that cost and salt and compares the digests. A hash
/// that it cannot read, for which it returns an error, verifies no key. The
/// answer depends on the two texts alone; it is named, not described.
#[verifier::external_body]
fn verify_key(api_key: &str, key_hash: &str) -> (r: bool)
    ensures
        r == bcrypt_accepts(api_key@, key_hash@),
{
    bcrypt::verify(api_key, key_hash).unwrap_or(false)
}

/// The list of strings that `text` holds as JSON, or the empty list if it
/// holds none.
pub uninterp spec fn permissions_in(text: Seq<char>) -> Seq<Seq<char>>;

/// The permissions written in `text`.
///
/// Calls `serde_json::from_str` for a list of strings. A text that is not
/// the JSON of such a list, for which it returns an error, gives the empty
/// list. The answer depends on the text alone; it is named, not described.
#[verifier::external_body]
fn parse_permissions(text: &str) -> (r: Vec<String>)
    ensures
        names(r@) == permissions_in(text@),
{
    serde_json::from_str(text).unwrap_or_default()
}

/// The index of the first stored key whose hash bcrypt verifies `api_key` against.
pub open spec fn matching_key(records: Seq<StoredApiKey>, api_key: Seq<char>) -> int {
    first_where(records, |r: StoredApiKey| bcrypt_accepts(api_key, r.key_hash@))
}

/// Why a stored key that matches does not authenticate at `now`, if it does
/// not: it is inactive, or it has expired.
pub open spec fn key_refusal(record: StoredApiKey, now: i64) -> Option<AuthError> {
    if !record.is_active {
        Some(AuthError::InactiveApiKey)
    } else if record.expires_at is Some && now > record.expires_at->0 {
        Some(AuthError::ExpiredApiKey)
    } else {
        None
    }
}

/// The stored key that `api_key` is, if it is one of `records`.
pub fn find_api_key(records: &Vec<StoredApiKey>, api_key: &String) -> (r: Option<usize>)
    ensures
        r is Some <==> matching_key(records@, api_key@) < records@.len(),
        r is Some ==> r->0 == matching_key(records@, api_key@),
{
    let ghost accepts = |r: StoredApiKey| bcrypt_accepts(api_key@, r.key_hash@);
    let mut i: usize = 0;
    while i < records.len()
        invariant
            i <= records@.len(),
            accepts == |r: StoredApiKey| bcrypt_accepts(api_key@, r.key_hash@),
            forall|j: int| 0 <= j < i ==> !accepts(#[trigger] records@[j]),
        decreases records@.len() - i,
    {
        if verify_key(api_key.as_str(), records[i].key_hash.as_str()) {
            proof {
                lemma_first_where_is(records@, accepts, i as int);
            }
            return Some(i);
        }
        i += 1;
    }
    proof {
        lemma_first_where_is(records@, accepts, records@.len() as int);
    }
    None
}

/// Whether a stored key that matches authenticates at `now`.
pub fn check_api_key(record: &StoredApiKey, now: i64) -> (r: Result<(), AuthError>)
    ensures
        r is Ok <==> key_refusal(*record, now) is None,
        r is Err ==> Some(r->Err_0) == key_refusal(*record, now),
{
    if !record.is_active {
        return Err(AuthError::InactiveApiKey);
    }
    if let Some(expires_at) = record.expires_at {
        if now > expires_at {
            return Err(AuthError::ExpiredApiKey);
        }
    }
    Ok(())
}

/// What a request that shows `api_key` at `now` is authenticated as: the
/// first stored key that matches, unless it is inactive or has expired. A
/// key that matches none is invalid.
pub fn validate_api_key(records: &Vec<StoredApiKey>, api_key: &String, now: i64) -> (r: Result<
    ApiKeyInfo,
    AuthError,
>)
    ensures
        ({
            let k = matching_key(records@, api_key@);
            if k >= records@.len() {
                r == Err::<ApiKeyInfo, AuthError>(AuthError::InvalidApiKey)
            } else if key_refusal(records@[k], now) is Some {
                r is Err && Some(r->Err_0) == key_refusal(records@[k], now)
            } else {
                &&& r is Ok
                &&& r->Ok_0.id == (match records@[k].id {
                    Some(id) => id,
                    None => 0,
                })
                &&& r->Ok_0.name@ == records@[k].name@
                &&& r->Ok_0.created_at == records@[k].created_at
                &&& r->Ok_0.expires_at == records@[k].expires_at
                &&& r->Ok_0.last_used_at == records@[k].last_used_at
                &&& r->Ok_0.is_active
                &&& r->Ok_0.rate_limit_per_minute as int == narrowed(
                    records@[k].rate_limit_per_minute,
                )
                &&& names(r->Ok_0.permissions@) == permissions_in(records@[k].permissions@)
            }
        }),
{
    let k = match find_api_key(records, api_key) {
        Some(k) => k,
        None => {
            return Err(AuthError::InvalidApiKey);
        },
    };
    let record = &records[k];
    if let Err(e) = check_api_key(record, now) {
        return Err(e);
    }
    Ok(
        ApiKeyInfo {
            id: match record.id {
                Some(id) => id,
                None => 0,
            },
            name: record.name.clone(),
            description: match &record.description {
                Some(d) => Some(d.clone()),
                None => None,
            },
            created_at: record.created_at,
            expires_at: record.expires_at,
            last_used_at: record.last_used_at,
            is_active: record.is_active,
            rate_limit_per_minute: narrow_limit(record.rate_limit_per_minute),
            permissions: parse_permissions(record.permissions.as_str()),
        },
    )
}

/// A stored rate limit as a 32-bit number: the nearest one it can be.
pub open spec fn narrowed(limit: i64) -> int {
    if limit > i32::MAX {
        i32::MAX as int
    } else if limit < i32::MIN {
        i32::MIN as int
    } else {
        limit as int
    }
}

/// A stored rate limit as a 32-bit number.
pub fn narrow_limit(limit: i64) -> (r: i32)
    ensures
        r == narrowed(limit),
{
    if limit > 0x7fff_ffff {
        0x7fff_ffff
    } else if limit < -0x8000_0000 {
        -0x8000_0000
    } else {
        limit as i32
    }
}

/// Whether the bytes `text` begin with the bytes `prefix`.
pub open spec fn begins_with(text: Seq<u8>, prefix: Seq<u8>) -> bool {
    prefix.len() <= text.len() && text.subrange(0, prefix.len() as int) == prefix
}

/// Whether `text` begins with `prefix`, byte for byte.
pub fn has_prefix(text: &str, prefix: &str) -> (r: bool)
    ensures
        r == begins_with(text.spec_bytes(), prefix.spec_bytes()),
{
    let t = text.as_bytes();
    let p = prefix.as_bytes();
    if p.len() > t.len() {
        return false;
    }
    let mut i: usize = 0;
    while i < p.len()
        invariant
            i <= p@.len() <= t@.len(),
            t@ == text.spec_bytes(),
            p@ == prefix.spec_bytes(),
            forall|j: int| 0 <= j < i ==> t@[j] == p@[j],
        decreases p@.len() - i,
    {
        if t[i] != p[i] {
            assert(t@.subrange(0, p@.len() as int)[i as int] != p@[i as int]);
            return false;
        }
        i += 1;
    }
    assert(t@.subrange(0, p@.len() as int) =~= p@);
    true
}

/// Which requests pass without an API key.
#[derive(Debug, Clone)]
pub struct AuthMiddleware {
    /// Requests to a path that begins with one of these need no key.
    pub skip_auth_paths: Vec<String>,
}

impl AuthMiddleware {
    /// Authentication with the health check and the socket left open.
    pub fn new() -> (r: Self)
        ensures
            names(r.skip_auth_paths@) == seq!["/api/v1/health"@, "/ws"@],
    {
        let mut skip_auth_paths: Vec<String> = Vec::new();
        skip_auth_paths.push(String::from_str("/api/v1/health"));
        skip_auth_paths.push(String::from_str("/ws"));
        assert(names(skip_auth_paths@) =~= seq!["/api/v1/health"@, "/ws"@]);
        AuthMiddleware { skip_auth_paths }
    }

    /// Whether a request to `path` passes without an API key.
    pub fn skips(&self, path: &str) -> (r: bool)
        ensures
            r == (exists|i: int|
                0 <= i < self.skip_auth_paths@.len() && begins_with(
                    path.spec_bytes(),
                    vstd::utf8::encode_utf8((#[trigger] self.skip_auth_paths@[i])@),
                )),
    {
        let mut i: usize = 0;
        while i < self.skip_auth_paths.len()
            invariant
                i <= self.skip_auth_paths@.len(),
                forall|j: int|
                    0 <= j < i ==> !begins_with(
                        path.spec_bytes(),
                        vstd::utf8::encode_utf8((#[trigger] self.skip_auth_paths@[j])@),
                    ),
            decreases self.skip_auth_paths@.len() - i,
        {
            if has_prefix(path, self.skip_auth_paths[i].as_str()) {
                return true;
            }
            i += 1;
        }
        false
    }
}

/// Why a request was turned away by the rate limit.
#[derive(Debug)]
pub enum RateLimitError {
    /// Too many requests; try again in `retry_after` seconds.
    Exceeded { retry_after: u64 },
    DatabaseError(String),
}

impl RateLimitError {
    /// The error as shown to a reader.
    pub open spec fn text(self) -> Seq<char> {
        match self {
            RateLimitError::Exceeded { retry_after } => "Rate limit exceeded. Retry after "@
                + crate::text::decimal(retry_after as nat) + " seconds"@,
            RateLimitError::DatabaseError(m) => "Database error: "@ + m@,
        }
    }

    /// The error as shown to a reader.
    pub fn to_string(&self) -> (r: String)
        ensures
            r@ == self.text(),
    {
        match self {
            RateLimitError::Exceeded { retry_after } => {
                let number = render_decimal(*retry_after as u128);
                join3("Rate limit exceeded. Retry after ", number.as_str(), " seconds")
            },
            RateLimitError::DatabaseError(m) => join("Database error: ", m.as_str()),
        }
    }

    /// The HTTP status of the error: always 429.
    pub fn status_code(&self) -> (r: u16)
        ensures
            r == 429,
    {
        429
    }
}

/// Whether one more request is within the limit: an error once the requests
/// counted in the window have reached it, with the length of the window as
/// the time to wait.
pub fn check_rate_limit(current_count: i64, limit: i32, window_seconds: u64) -> (r: Result<
    (),
    RateLimitError,
>)
    ensures
        r is Ok <==> current_count < limit,
        r is Err ==> r->Err_0 == (RateLimitError::Exceeded { retry_after: window_seconds }),
{
    if current_count >= limit as i64 {
        return Err(RateLimitError::Exceeded { retry_after: window_seconds });
    }
    Ok(())
}

/// The identifier of one request.
#[derive(Debug, Clone)]
pub struct RequestId(pub String);

/// A new random identifier in the hyphenated form of a UUID.
///
/// Calls `uuid::Uuid::new_v4` and writes the value with the `Display` of
/// `Uuid`, which is the hyphenated lower-case form: 32 hexadecimal digits in
/// groups of 8, 4, 4, 4 and 12. Only the length is claimed, which is that of
/// every such text.
#[verifier::external_body]
fn new_uuid_text() -> (r: String)
    ensures
        r@.len() == 36,
{
    uuid::Uuid::new_v4().to_string()
}

impl RequestId {
    /// A fresh identifier for a request: 36 characters long.
    pub fn generate() -> (r: RequestId)
        ensures
            r.0@.len() == 36,
    {
        RequestId(new_uuid_text())
    }
}

} // verus!
