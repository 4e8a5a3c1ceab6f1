//! Client settings and request/response rules for the ClawHub public skill
//! registry (routes follow the `clawhub` CLI). The HTTP transport itself is
//! left to the caller.

use vstd::prelude::*;
use vstd::string::*;
use crate::text::{
    concat3, has_sub, opt_view, str_contains, str_contains_char, str_trim, to_owned_string, trim,
    u64_to_string, decimal,
};

verus! {

/// Default registry base URL (the `clawhub` CLI's `--registry` default).
pub const DEFAULT_REGISTRY_URL: &'static str = "https://clawhub.ai";

/// Shortest request timeout, in milliseconds.
pub const MIN_TIMEOUT_MS: u64 = 1000;

/// `s` without trailing `/` characters (`trim_end_matches('/')`).
pub open spec fn strip_trailing_slashes(s: Seq<char>) -> Seq<char>
    decreases s.len(),
{
    if s.len() > 0 && s.last() == '/' {
        strip_trailing_slashes(s.drop_last())
    } else {
        s
    }
}

/// `s` without leading `/` characters (`trim_start_matches('/')`).
pub open spec fn strip_leading_slashes(s: Seq<char>) -> Seq<char>
    decreases s.len(),
{
    if s.len() > 0 && s[0] == '/' {
        strip_leading_slashes(s.drop_first())
    } else {
        s
    }
}

/// `s.trim_end_matches('/')`.
pub fn trim_trailing_slashes(s: &str) -> (r: &str)
    ensures
        r@ == strip_trailing_slashes(s@),
{
    let n = s.unicode_len();
    let mut j: usize = n;
    assert(s@.subrange(0, n as int) =~= s@);
    while j > 0 && s.get_char(j - 1) == '/'
        invariant
            n == s@.len(),
            j <= n,
            strip_trailing_slashes(s@) == strip_trailing_slashes(s@.subrange(0, j as int)),
        decreases j,
    {
        assert(s@.subrange(0, j as int).drop_last() =~= s@.subrange(0, j - 1));
        j = j - 1;
    }
    s.substring_char(0, j)
}

/// `s.trim_start_matches('/')`.
pub fn trim_leading_slashes(s: &str) -> (r: &str)
    ensures
        r@ == strip_leading_slashes(s@),
{
    let n = s.unicode_len();
    let mut i: usize = 0;
    assert(s@.subrange(0, n as int) =~= s@);
    while i < n && s.get_char(i) == '/'
        invariant
            n == s@.len(),
            i <= n,
            strip_leading_slashes(s@) == strip_leading_slashes(s@.subrange(i as int, n as int)),
        decreases n - i,
    {
        assert(s@.subrange(i as int, n as int).drop_first() =~= s@.subrange(i + 1, n as int));
        i = i + 1;
    }
    s.substring_char(i, n)
}

/// Connection settings of the registry client.
#[derive(Debug, Clone)]
pub struct ClawHubRegistry {
    base_url: String,
    timeout_ms: u64,
    token: Option<String>,
}

/// Why a registry request was refused or failed.
#[derive(Debug, Clone)]
pub enum ClawHubError {
    /// The skill slug is empty, holds `..` or a `/`.
    InvalidSlug,
    /// The registry answered with a non-success status.
    Http { operation: String, status: String, body: String },
}

impl ClawHubError {
    pub open spec fn message_spec(&self) -> Seq<char> {
        match self {
            ClawHubError::InvalidSlug => "invalid skill slug"@,
            ClawHubError::Http { operation, status, body } => "clawhub "@ + operation@ + " HTTP "@
                + status@ + ": "@ + body@,
        }
    }

    /// The error text.
    pub fn message(&self) -> (r: String)
        ensures
            r@ == self.message_spec(),
    {
        match self {
            ClawHubError::InvalidSlug => to_owned_string("invalid skill slug"),
            ClawHubError::Http { operation, status, body } => {
                let mut r = to_owned_string("clawhub ");
                r.append(operation.as_str());
                r.append(" HTTP ");
                r.append(status.as_str());
                r.append(": ");
                r.append(body.as_str());
                r
            },
        }
    }
}

/// The query value of an explore request: `limit` clamped to `1..=200`.
pub open spec fn explore_limit_spec(limit: u32) -> u32 {
    if limit > 200 {
        200
    } else if limit < 1 {
        1
    } else {
        limit
    }
}

/// The slug of a metadata request: trimmed, leading `/` removed.
pub open spec fn clean_slug(slug: Seq<char>) -> Seq<char> {
    strip_leading_slashes(trim(slug))
}

/// A slug names one package: non-empty, no `..`, no `/`.
pub open spec fn slug_ok(slug: Seq<char>) -> bool {
    slug.len() > 0 && !has_sub(slug, ".."@) && !slug.contains('/')
}

impl ClawHubRegistry {
    pub closed spec fn base_url_spec(&self) -> Seq<char> {
        self.base_url@
    }

    pub closed spec fn timeout_spec(&self) -> u64 {
        self.timeout_ms
    }

    pub closed spec fn token_spec(&self) -> Option<Seq<char>> {
        opt_view(self.token)
    }

    /// Client for the registry at `base_url` (trailing `/` removed), with a
    /// request timeout of at least one second and an optional bearer token.
    pub fn new(base_url: String, timeout_ms: u64, token: Option<String>) -> (r: Self)
        ensures
            r.base_url_spec() == strip_trailing_slashes(base_url@),
            r.timeout_spec() == if timeout_ms < MIN_TIMEOUT_MS {
                MIN_TIMEOUT_MS
            } else {
                timeout_ms
            },
            r.token_spec() == opt_view(token),
    {
        let base = trim_trailing_slashes(base_url.as_str()).to_owned();
        let timeout = if timeout_ms < MIN_TIMEOUT_MS {
            MIN_TIMEOUT_MS
        } else {
            timeout_ms
        };
        ClawHubRegistry { base_url: base, timeout_ms: timeout, token }
    }

    /// The base URL, without trailing `/`.
    pub fn base_url(&self) -> (r: &str)
        ensures
            r@ == self.base_url_spec(),
    {
        self.base_url.as_str()
    }

    /// The request timeout in milliseconds.
    pub fn timeout_ms(&self) -> (r: u64)
        ensures
            r == self.timeout_spec(),
    {
        self.timeout_ms
    }

    /// The `Authorization` header value: `Bearer <token>` for a token that is
    /// not blank (trimmed), none otherwise.
    pub fn auth_header(&self) -> (r: Option<String>)
        ensures
            match self.token_spec() {
                Some(t) => if trim(t).len() > 0 {
                    r matches Some(h) && h@ == "Bearer "@ + trim(t)
                } else {
                    r is None
                },
                None => r is None,
            },
    {
        match &self.token {
            Some(t) => {
                let t = str_trim(t.as_str());
                if !t.is_empty() {
                    let mut h = to_owned_string("Bearer ");
                    h.append(t);
                    Some(h)
                } else {
                    None
                }
            },
            None => None,
        }
    }

    /// `GET <base>/api/v1/search` (query `q`).
    pub fn search_url(&self) -> (r: String)
        ensures
            r@ == self.base_url_spec() + "/api/v1/search"@,
    {
        let mut r = self.base_url.clone();
        r.append("/api/v1/search");
        r
    }

    /// `GET <base>/api/v1/skills` (query `limit`).
    pub fn explore_url(&self) -> (r: String)
        ensures
            r@ == self.base_url_spec() + "/api/v1/skills"@,
    {
        let mut r = self.base_url.clone();
        r.append("/api/v1/skills");
        r
    }

    /// The `limit` query value of an explore request.
    pub fn explore_limit(limit: u32) -> (r: u32)
        ensures
            r == explore_limit_spec(limit),
    {
        let capped = if limit < 200 {
            limit
        } else {
            200
        };
        if capped > 1 {
            capped
        } else {
            1
        }
    }

    /// `GET <base>/api/v1/skills/<slug>`: the slug is trimmed and loses its
    /// leading `/`; an empty slug, one holding `..` or a `/` is refused.
    pub fn skill_json_url(&self, slug: &str) -> (r: Result<String, ClawHubError>)
        ensures
            slug_ok(clean_slug(slug@)) ==> (r matches Ok(u) && u@ == self.base_url_spec()
                + "/api/v1/skills/"@ + clean_slug(slug@)),
            !slug_ok(clean_slug(slug@)) ==> r matches Err(ClawHubError::InvalidSlug),
    {
        let slug = trim_leading_slashes(str_trim(slug));
        if slug.is_empty() || str_contains(slug, "..") || str_contains_char(slug, '/') {
            return Err(ClawHubError::InvalidSlug);
        }
        let mut r = self.base_url.clone();
        r.append("/api/v1/skills/");
        r.append(slug);
        Ok(r)
    }

    /// `GET <base>/api/v1/download` (query `slug`).
    pub fn download_url(&self) -> (r: String)
        ensures
            r@ == self.base_url_spec() + "/api/v1/download"@,
    {
        let mut r = self.base_url.clone();
        r.append("/api/v1/download");
        r
    }
}

/// What a registry response gives: its body on a success status, else an
/// HTTP error naming the operation, the status and the body.
pub fn response_outcome(operation: &str, success: bool, status: &str, body: String) -> (r: Result<
    String,
    ClawHubError,
>)
    ensures
        success ==> (r matches Ok(b) && b@ == body@),
        !success ==> (r matches Err(ClawHubError::Http { operation: o, status: s, body: b }) && o@
            == operation@ && s@ == status@ && b@ == body@),
{
    if success {
        Ok(body)
    } else {
        Err(ClawHubError::Http { operation: operation.to_owned(), status: status.to_owned(), body })
    }
}

} // verus!
