//! The OAuth flow: building the authorize URL, extracting the authorization
//! code from a redirect URL, and turning the upstream exchange outcome into a
//! bearer token or a structured error.
//!
//! The outbound network call of the exchange is made by the embedding
//! application: this module prepares exactly what that call sends and decides
//! what its outcome means.

use crate::config::OAuthConfig;
use crate::config::spec_required_scopes;
use crate::text::contains_seq;
use crate::text::lemma_contains_append;
use crate::text::lemma_contains_prepend;
use crate::text::lemma_contains_self;
use vstd::prelude::*;

verus! {

/// Authentication-stage failures, surfaced to the caller as structured
/// errors, never a crash.
#[derive(Clone, Copy, Debug, PartialEq, Eq, Structural)]
pub enum AuthError {
    /// The redirect URL carries no authorization code.
    MissingCode,
    /// The provider rejected the code, or the exchange call failed.
    ExchangeFailed,
    /// The bearer token is absent, expired or malformed.
    InvalidToken,
}

/// The scopes joined by single spaces, in order.
pub open spec fn spec_join_scopes(scopes: Seq<Seq<char>>) -> Seq<char>
    decreases scopes.len(),
{
    if scopes.len() == 0 {
        Seq::empty()
    } else if scopes.len() == 1 {
        scopes[0]
    } else {
        spec_join_scopes(scopes.drop_last()) + " "@ + scopes.last()
    }
}

/// Everything of the authorize URL that comes before the scopes.
pub open spec fn spec_authorize_prefix(c: OAuthConfig) -> Seq<char> {
    "https://accounts.spotify.com/authorize?client_id="@ + c.client_id@
        + "&response_type=code&redirect_uri="@ + c.redirect_uri@ + "&scope="@
}

/// The authorize URL built from a configuration: the provider's authorize
/// endpoint carrying the client id, the response type, the redirect URI and
/// the space-joined scopes.
pub open spec fn spec_authorize_url(c: OAuthConfig) -> Seq<char> {
    spec_authorize_prefix(c) + spec_join_scopes(c.scopes.deep_view())
}

proof fn lemma_join_scopes_take_step(ss: Seq<Seq<char>>, i: int)
    requires
        0 <= i < ss.len(),
    ensures
        i == 0 ==> spec_join_scopes(ss.take(1)) == ss[0],
        i > 0 ==> spec_join_scopes(ss.take(i + 1)) == spec_join_scopes(ss.take(i)) + " "@
            + ss[i],
{
    let t = ss.take(i + 1);
    if i == 0 {
        assert(t.len() == 1);
        assert(t[0] == ss[0]);
    } else {
        assert(t.drop_last() =~= ss.take(i));
        assert(t.last() == ss[i]);
    }
}

/// Pure construction of the authorize URL; always succeeds on a
/// configuration.
pub fn build_authorize_url(config: &OAuthConfig) -> (r: String)
    ensures
        r@ == spec_authorize_url(*config),
{
    let mut url = String::from_str("https://accounts.spotify.com/authorize?client_id=");
    url.append(config.client_id.as_str());
    url.append("&response_type=code&redirect_uri=");
    url.append(config.redirect_uri.as_str());
    url.append("&scope=");
    let ghost scope_views = config.scopes.deep_view();
    proof {
        assert(spec_join_scopes(scope_views.take(0)) =~= Seq::<char>::empty());
        assert(url@ =~= spec_authorize_prefix(*config) + spec_join_scopes(scope_views.take(0)));
    }
    let n = config.scopes.len();
    let mut i: usize = 0;
    while i < n
        invariant
            n == config.scopes.len(),
            i <= n,
            scope_views == config.scopes.deep_view(),
            url@ == spec_authorize_prefix(*config) + spec_join_scopes(
                scope_views.take(i as int),
            ),
        decreases n - i,
    {
        proof {
            lemma_join_scopes_take_step(scope_views, i as int);
        }
        if i > 0 {
            url.append(" ");
        }
        url.append(config.scopes[i].as_str());
        proof {
            assert(config.scopes[i as int]@ == scope_views[i as int]);
            assert(url@ =~= spec_authorize_prefix(*config) + spec_join_scopes(
                scope_views.take(i as int + 1),
            ));
        }
        i = i + 1;
    }
    proof {
        assert(scope_views.take(n as int) =~= scope_views);
    }
    url
}

/// For every well-formed configuration the authorize URL contains the client
/// id, the redirect URI, and all five required scopes.
pub proof fn lemma_authorize_url_contains_required(c: OAuthConfig)
    requires
        c.wf(),
    ensures
        contains_seq(spec_authorize_url(c), c.client_id@),
        contains_seq(spec_authorize_url(c), c.redirect_uri@),
        contains_seq(spec_authorize_url(c), "app-remote-control"@),
        contains_seq(spec_authorize_url(c), "streaming"@),
        contains_seq(spec_authorize_url(c), "user-read-playback-state"@),
        contains_seq(spec_authorize_url(c), "user-modify-playback-state"@),
        contains_seq(spec_authorize_url(c), "user-read-currently-playing"@),
{
    let a = "https://accounts.spotify.com/authorize?client_id="@;
    let b = "&response_type=code&redirect_uri="@;
    let d = "&scope="@;
    let sp = " "@;
    let id = c.client_id@;
    let ru = c.redirect_uri@;
    let s0 = "app-remote-control"@;
    let s1 = "streaming"@;
    let s2 = "user-read-playback-state"@;
    let s3 = "user-modify-playback-state"@;
    let s4 = "user-read-currently-playing"@;
    let ss = spec_required_scopes();
    let js = spec_join_scopes(ss);
    assert(c.scopes.deep_view() == ss);
    // The join of the five scopes, unfolded step by step.
    assert(ss.take(1) =~= seq![s0]);
    assert(ss.take(2) =~= seq![s0, s1]);
    assert(ss.take(3) =~= seq![s0, s1, s2]);
    assert(ss.take(4) =~= seq![s0, s1, s2, s3]);
    assert(ss.take(5) =~= ss);
    lemma_join_scopes_take_step(ss, 0);
    lemma_join_scopes_take_step(ss, 1);
    lemma_join_scopes_take_step(ss, 2);
    lemma_join_scopes_take_step(ss, 3);
    lemma_join_scopes_take_step(ss, 4);
    let j1 = spec_join_scopes(ss.take(1));
    let j2 = spec_join_scopes(ss.take(2));
    let j3 = spec_join_scopes(ss.take(3));
    let j4 = spec_join_scopes(ss.take(4));
    assert(j1 == s0);
    assert(j2 == j1 + sp + s1);
    assert(j3 == j2 + sp + s2);
    assert(j4 == j3 + sp + s3);
    assert(js == j4 + sp + s4);
    // Each scope is contained in the join.
    lemma_contains_self(s4);
    lemma_contains_prepend(j4 + sp, s4, s4);
    lemma_contains_self(s3);
    lemma_contains_prepend(j3 + sp, s3, s3);
    lemma_contains_append(j4, sp, s3);
    lemma_contains_append(j4 + sp, s4, s3);
    lemma_contains_self(s2);
    lemma_contains_prepend(j2 + sp, s2, s2);
    lemma_contains_append(j3, sp, s2);
    lemma_contains_append(j3 + sp, s3, s2);
    lemma_contains_append(j4, sp, s2);
    lemma_contains_append(j4 + sp, s4, s2);
    lemma_contains_self(s1);
    lemma_contains_prepend(j1 + sp, s1, s1);
    lemma_contains_append(j2, sp, s1);
    lemma_contains_append(j2 + sp, s2, s1);
    lemma_contains_append(j3, sp, s1);
    lemma_contains_append(j3 + sp, s3, s1);
    lemma_contains_append(j4, sp, s1);
    lemma_contains_append(j4 + sp, s4, s1);
    lemma_contains_self(s0);
    lemma_contains_append(j1, sp, s0);
    lemma_contains_append(j1 + sp, s1, s0);
    lemma_contains_append(j2, sp, s0);
    lemma_contains_append(j2 + sp, s2, s0);
    lemma_contains_append(j3, sp, s0);
    lemma_contains_append(j3 + sp, s3, s0);
    lemma_contains_append(j4, sp, s0);
    lemma_contains_append(j4 + sp, s4, s0);
    // Lift containment in the join to the whole URL.
    let prefix = spec_authorize_prefix(c);
    let url = spec_authorize_url(c);
    assert(url == prefix + js);
    lemma_contains_prepend(prefix, js, s0);
    lemma_contains_prepend(prefix, js, s1);
    lemma_contains_prepend(prefix, js, s2);
    lemma_contains_prepend(prefix, js, s3);
    lemma_contains_prepend(prefix, js, s4);
    // The client id and the redirect URI sit inside the prefix.
    lemma_contains_self(id);
    lemma_contains_prepend(a, id, id);
    lemma_contains_append(a + id, b, id);
    lemma_contains_append(a + id + b, ru, id);
    lemma_contains_append(a + id + b + ru, d, id);
    lemma_contains_append(prefix, js, id);
    lemma_contains_self(ru);
    lemma_contains_prepend(a + id + b, ru, ru);
    lemma_contains_append(a + id + b + ru, d, ru);
    lemma_contains_append(prefix, js, ru);
}

/// The query marker that introduces the authorization code.
pub open spec fn spec_code_marker() -> Seq<char> {
    seq!['?', 'c', 'o', 'd', 'e', '=']
}

/// The position of the first occurrence of the code marker at or after `i`.
pub open spec fn spec_find_marker(s: Seq<char>, i: int) -> Option<int>
    decreases s.len() - i,
{
    if i < 0 || i + 6 > s.len() {
        None
    } else if s.subrange(i, i + 6) == spec_code_marker() {
        Some(i)
    } else {
        spec_find_marker(s, i + 1)
    }
}

/// The position of the first `&` at or after `i`, or the length of `s` when
/// there is none.
pub open spec fn spec_find_amp(s: Seq<char>, i: int) -> int
    decreases s.len() - i,
{
    if i >= s.len() {
        s.len() as int
    } else if s[i] == '&' {
        i
    } else {
        spec_find_amp(s, i + 1)
    }
}

/// The authorization code carried by a redirect URL: the characters between
/// the first `?code=` and the next `&` (or the end), or nothing when the URL
/// carries no code parameter.
pub open spec fn spec_extract_code(s: Seq<char>) -> Option<Seq<char>> {
    match spec_find_marker(s, 0) {
        None => None,
        Some(i) => Some(s.subrange(i + 6, spec_find_amp(s, i + 6))),
    }
}

fn marker_at(s: &str, i: usize) -> (r: bool)
    requires
        i + 6 <= s@.len(),
        s@.len() <= usize::MAX,
    ensures
        r == (s@.subrange(i as int, i as int + 6) == spec_code_marker()),
{
    let r = s.get_char(i) == '?' && s.get_char(i + 1) == 'c' && s.get_char(i + 2) == 'o'
        && s.get_char(i + 3) == 'd' && s.get_char(i + 4) == 'e' && s.get_char(i + 5) == '=';
    proof {
        let sub = s@.subrange(i as int, i as int + 6);
        if r {
            assert(sub =~= spec_code_marker());
        }
        if sub == spec_code_marker() {
            assert(s@[i as int] == sub[0]);
            assert(s@[i as int + 1] == sub[1]);
            assert(s@[i as int + 2] == sub[2]);
            assert(s@[i as int + 3] == sub[3]);
            assert(s@[i as int + 4] == sub[4]);
            assert(s@[i as int + 5] == sub[5]);
        }
    }
    r
}

fn find_code_marker(s: &str) -> (r: Option<usize>)
    ensures
        r matches Some(i) ==> spec_find_marker(s@, 0) == Some(i as int) && i + 6 <= s@.len(),
        r is None ==> spec_find_marker(s@, 0) is None,
{
    let n = s.unicode_len();
    if n < 6 {
        return None;
    }
    let mut i: usize = 0;
    while i <= n - 6
        invariant
            n == s@.len(),
            6 <= n,
            i + 6 <= n + 1,
            spec_find_marker(s@, 0) == spec_find_marker(s@, i as int),
        decreases n - i,
    {
        if marker_at(s, i) {
            proof {
                assert(spec_find_marker(s@, i as int) == Some(i as int));
            }
            return Some(i);
        }
        proof {
            assert(spec_find_marker(s@, i as int) == spec_find_marker(s@, i as int + 1));
        }
        i = i + 1;
    }
    proof {
        assert(spec_find_marker(s@, i as int) is None);
    }
    None
}

/// Extracts the authorization code from a redirect URL, as the upstream
/// consent flow delivers it: the text between the first `?code=` and the
/// following `&`.
pub fn extract_code(url: &str) -> (r: Option<String>)
    ensures
        (r is Some) == (spec_extract_code(url@) is Some),
        r matches Some(code) ==> code@ == spec_extract_code(url@)->Some_0,
{
    match find_code_marker(url) {
        None => None,
        Some(i) => {
            let n = url.unicode_len();
            let start = i + 6;
            let mut j = start;
            while j < n && url.get_char(j) != '&'
                invariant
                    n == url@.len(),
                    start <= j <= n,
                    spec_find_amp(url@, start as int) == spec_find_amp(url@, j as int),
                decreases n - j,
            {
                proof {
                    assert(spec_find_amp(url@, j as int) == spec_find_amp(url@, j as int + 1));
                }
                j = j + 1;
            }
            proof {
                assert(spec_find_amp(url@, j as int) == j as int);
                assert(spec_find_amp(url@, start as int) == j as int);
            }
            let piece = url.substring_char(start, j);
            Some(String::from_str(piece))
        },
    }
}

/// What the gateway sends to the provider's token endpoint: the extracted
/// code together with the client credentials and the redirect URI.
pub struct TokenRequest {
    pub code: String,
    pub client_id: String,
    pub client_secret: String,
    pub redirect_uri: String,
}

/// First step of the code-for-token exchange: parses the redirect URL and,
/// only when it carries a code, assembles the outbound token request. A URL
/// without a code parameter fails with `MissingCode` and yields no request,
/// so the upstream exchange endpoint is never reached for it.
pub fn prepare_token_request(config: &OAuthConfig, redirect_url: &str) -> (r: Result<
    TokenRequest,
    AuthError,
>)
    ensures
        (r is Ok) == (spec_extract_code(redirect_url@) is Some),
        r matches Ok(t) ==> {
            &&& t.code@ == spec_extract_code(redirect_url@)->Some_0
            &&& t.client_id@ == config.client_id@
            &&& t.client_secret@ == config.client_secret@
            &&& t.redirect_uri@ == config.redirect_uri@
        },
        r is Err ==> r == Err::<TokenRequest, AuthError>(AuthError::MissingCode),
{
    match extract_code(redirect_url) {
        Some(code) => Ok(
            TokenRequest {
                code,
                client_id: config.client_id.clone(),
                client_secret: config.client_secret.clone(),
                redirect_uri: config.redirect_uri.clone(),
            },
        ),
        None => Err(AuthError::MissingCode),
    }
}

/// The parse step's decision: the code to exchange, or `MissingCode`.
pub open spec fn spec_code_decision(url: Seq<char>) -> Result<Seq<char>, AuthError> {
    match spec_extract_code(url) {
        Some(c) => Ok(c),
        None => Err(AuthError::MissingCode),
    }
}

/// A redirect URL lacking a code parameter always decides `MissingCode`; no
/// token request is assembled for such a URL, so the upstream exchange
/// endpoint is never called for it.
pub proof fn lemma_missing_code_short_circuits(url: Seq<char>)
    requires
        spec_extract_code(url) is None,
    ensures
        spec_code_decision(url) == Err::<Seq<char>, AuthError>(AuthError::MissingCode),
{
}

/// Second step of the exchange: the upstream token endpoint either returned
/// a bearer token or rejected the code; a rejection becomes
/// `ExchangeFailed`.
pub fn complete_token_exchange(upstream_token: Option<String>) -> (r: Result<String, AuthError>)
    ensures
        (r is Ok) == (upstream_token is Some),
        r matches Ok(t) ==> t == upstream_token->Some_0,
        r is Err ==> r == Err::<String, AuthError>(AuthError::ExchangeFailed),
{
    match upstream_token {
        Some(t) => Ok(t),
        None => Err(AuthError::ExchangeFailed),
    }
}

/// Reads the bearer token out of an incoming request's authorization header;
/// an absent header is a recoverable `InvalidToken`, never a crash.
pub fn token_from_header(header: Option<String>) -> (r: Result<String, AuthError>)
    ensures
        (r is Ok) == (header is Some),
        r matches Ok(t) ==> t == header->Some_0,
        r is Err ==> r == Err::<String, AuthError>(AuthError::InvalidToken),
{
    match header {
        Some(t) => Ok(t),
        None => Err(AuthError::InvalidToken),
    }
}

/// The profile passthrough: the upstream "me" answer is forwarded as it
/// came; an upstream failure becomes `InvalidToken`.
pub fn profile_from_upstream(upstream_profile: Option<String>) -> (r: Result<String, AuthError>)
    ensures
        (r is Ok) == (upstream_profile is Some),
        r matches Ok(p) ==> p == upstream_profile->Some_0,
        r is Err ==> r == Err::<String, AuthError>(AuthError::InvalidToken),
{
    match upstream_profile {
        Some(p) => Ok(p),
        None => Err(AuthError::InvalidToken),
    }
}

} // verus!
