//! The cached bearer token and its refresh transitions.
//!
//! The cache holds at most one token. A background loop is its only writer:
//! it performs one client-credentials exchange per token lifetime and hands
//! the outcome to [`AzureClientTokenProvider::refresh`], which either stores
//! the new token (with a safety margin subtracted from its declared
//! lifetime) or clears the slot, so that a failing refresh can never leave a
//! stale token behind. Readers call [`AzureClientTokenProvider::get_secret`],
//! a pure read that never triggers network work.
//!
//! Instants are modelled as whole seconds on one monotonic clock; the
//! process supplies `now` from that clock at every call.

use vstd::prelude::*;
use crate::settings::AppSettings;

verus! {

/// Safety margin in seconds: a token is treated as expired this long before
/// the upstream-declared lifetime runs out.
pub const AZURE_TOKEN_MIN_LIFETIME: u64 = 60;

/// Seconds to wait before retrying after a failed refresh.
pub const AZURE_TOKEN_FETCH_RETRY: u64 = 10;

pub open spec fn spec_azure_base_url() -> Seq<char> {
    "https://login.microsoftonline.com"@
}

pub open spec fn spec_azure_auth_path() -> Seq<char> {
    "oauth2/v2.0/authorize"@
}

pub open spec fn spec_azure_token_path() -> Seq<char> {
    "oauth2/v2.0/token"@
}

pub open spec fn spec_azure_scope() -> Seq<char> {
    "https://graph.microsoft.com/.default"@
}

/// The scope requested with every client-credentials exchange.
pub fn azure_scope() -> (r: &'static str)
    ensures
        r@ == spec_azure_scope(),
{
    "https://graph.microsoft.com/.default"
}

/// One cached bearer credential.
pub struct Token {
    /// The opaque secret presented in authorization headers.
    pub secret: String,
    /// Instant (seconds) from which the token is no longer used.
    pub expires_at: u64,
}

/// What one client-credentials exchange came back with. The process performs
/// the network round-trip and reports it here as plain values.
pub enum TokenExchange {
    /// The authorization server granted a token; `lifetime_secs` is the
    /// declared lifetime, absent when the response carried none.
    Granted { secret: String, lifetime_secs: Option<u64> },
    /// Network failure or a non-success response.
    Denied,
}

#[derive(Clone, Copy, Debug, PartialEq, Eq)]
pub enum TokenError {
    /// No usable token is cached.
    NoToken,
    /// The token exchange itself failed.
    ExchangeFailed,
    /// The exchange succeeded but declared no lifetime.
    MissingLifetime,
}

impl TokenError {
    pub open spec fn spec_message(&self) -> Seq<char> {
        match self {
            TokenError::NoToken => "No Azure token available"@,
            TokenError::ExchangeFailed => "Failed to retrieve Azure token"@,
            TokenError::MissingLifetime => "Token doesn't have expiration date"@,
        }
    }

    /// The error text shown on the status page.
    pub fn message(&self) -> (r: &'static str)
        ensures
            r@ == self.spec_message(),
    {
        match self {
            TokenError::NoToken => "No Azure token available",
            TokenError::ExchangeFailed => "Failed to retrieve Azure token",
            TokenError::MissingLifetime => "Token doesn't have expiration date",
        }
    }
}

/// The expiry instant stored for a token granted at `now` with declared
/// lifetime `lifetime`: the safety margin is taken off, and an expiry that
/// would lie before the clock's zero is clamped to it.
pub open spec fn spec_expiry(now: int, lifetime: int) -> int {
    if now + lifetime >= AZURE_TOKEN_MIN_LIFETIME {
        now + lifetime - AZURE_TOKEN_MIN_LIFETIME
    } else {
        0
    }
}

/// Whether a read at instant `now` finds a usable token in `slot`.
pub open spec fn token_usable(slot: Option<Token>, now: u64) -> bool {
    slot matches Some(t) && now < t.expires_at
}

/// Owner of the one cached token for a single client-credentials identity.
pub struct AzureClientTokenProvider {
    /// Authorization endpoint for this tenant.
    pub auth_url: String,
    /// Token endpoint for this tenant.
    pub token_url: String,
    /// The cached token slot; `None` when no usable token is held.
    pub token: Option<Token>,
}

pub open spec fn spec_tenant_url(tenant: Seq<char>, path: Seq<char>) -> Seq<char> {
    spec_azure_base_url() + "/"@ + tenant + "/"@ + path
}

fn tenant_url(tenant: &str, path: &str) -> (r: String)
    ensures
        r@ == spec_tenant_url(tenant@, path@),
{
    let mut s = String::from_str("https://login.microsoftonline.com");
    s.append("/");
    s.append(tenant);
    s.append("/");
    s.append(path);
    proof {
        assert(s@ =~= spec_tenant_url(tenant@, path@));
    }
    s
}

impl AzureClientTokenProvider {
    /// A fresh provider for the configured tenant: both endpoint addresses
    /// derived from the tenant identifier, and an empty token slot.
    pub fn init(settings: &AppSettings) -> (r: Self)
        ensures
            r.token is None,
            r.auth_url@ == spec_tenant_url(settings.azure_tenant_id@, spec_azure_auth_path()),
            r.token_url@ == spec_tenant_url(settings.azure_tenant_id@, spec_azure_token_path()),
    {
        let auth_url = tenant_url(settings.azure_tenant_id.as_str(), "oauth2/v2.0/authorize");
        let token_url = tenant_url(settings.azure_tenant_id.as_str(), "oauth2/v2.0/token");
        AzureClientTokenProvider { auth_url, token_url, token: None }
    }

    /// The refresh transition: the new content of the token slot and the
    /// refresh result, as a function of the exchange outcome alone.
    pub open spec fn spec_refresh(now: u64, exchange: TokenExchange) -> (Option<Token>, Result<
        u64,
        TokenError,
    >) {
        match exchange {
            TokenExchange::Denied => (None, Err(TokenError::ExchangeFailed)),
            TokenExchange::Granted { secret, lifetime_secs } => match lifetime_secs {
                None => (None, Err(TokenError::MissingLifetime)),
                Some(l) => {
                    let expires_at = spec_expiry(now as int, l as int) as u64;
                    (Some(Token { secret, expires_at }), Ok(expires_at))
                },
            },
        }
    }

    /// Apply the outcome of one token exchange, performed at instant `now`.
    /// On a grant with a declared lifetime, the new token is stored and its
    /// computed expiry returned; on any failure the slot is cleared and the
    /// error returned, so no stale token survives a failed refresh.
    pub fn refresh(&mut self, now: u64, exchange: TokenExchange) -> (r: Result<u64, TokenError>)
        requires
            exchange matches TokenExchange::Granted { lifetime_secs: Some(l), .. } ==> now + l
                <= u64::MAX,
        ensures
            final(self).token == Self::spec_refresh(now, exchange).0,
            r == Self::spec_refresh(now, exchange).1,
            final(self).auth_url == old(self).auth_url,
            final(self).token_url == old(self).token_url,
    {
        match exchange {
            TokenExchange::Denied => {
                self.token = None;
                Err(TokenError::ExchangeFailed)
            },
            TokenExchange::Granted { secret, lifetime_secs } => match lifetime_secs {
                None => {
                    self.token = None;
                    Err(TokenError::MissingLifetime)
                },
                Some(l) => {
                    let total = now + l;
                    let expires_at = if total >= AZURE_TOKEN_MIN_LIFETIME {
                        total - AZURE_TOKEN_MIN_LIFETIME
                    } else {
                        0
                    };
                    self.token = Some(Token { secret, expires_at });
                    Ok(expires_at)
                },
            },
        }
    }

    /// When the refresh loop should run again: at the returned expiry after
    /// a success, after the fixed retry interval otherwise.
    pub fn next_refresh_deadline(now: u64, refresh_result: &Result<u64, TokenError>) -> (d: u64)
        requires
            now + AZURE_TOKEN_FETCH_RETRY <= u64::MAX,
        ensures
            refresh_result matches Ok(e) ==> d == e,
            refresh_result is Err ==> d == now + AZURE_TOKEN_FETCH_RETRY,
    {
        match refresh_result {
            Ok(expiry) => *expiry,
            Err(_) => now + AZURE_TOKEN_FETCH_RETRY,
        }
    }

    /// Whether a read at instant `now` finds a usable token.
    pub open spec fn spec_usable(&self, now: u64) -> bool {
        token_usable(self.token, now)
    }

    /// Read the cached token: a copy of its secret while one is held and
    /// still ahead of its expiry, an error otherwise. Never refreshes.
    pub fn get_secret(&self, now: u64) -> (r: Result<String, TokenError>)
        ensures
            r is Ok <==> self.spec_usable(now),
            r matches Ok(s) ==> self.token matches Some(t) && s@ == t.secret@,
            r is Err ==> r == Err::<String, TokenError>(TokenError::NoToken),
    {
        match &self.token {
            Some(t) => {
                if now < t.expires_at {
                    Ok(t.secret.clone())
                } else {
                    Err(TokenError::NoToken)
                }
            },
            None => Err(TokenError::NoToken),
        }
    }
}

/// A failed refresh always clears the token slot: whatever exchange outcome
/// made the refresh report an error, the slot afterwards holds nothing and
/// no read, at any instant, can still see a token.
pub proof fn lemma_failed_refresh_clears(now: u64, exchange: TokenExchange, read_now: u64)
    requires
        AzureClientTokenProvider::spec_refresh(now, exchange).1 is Err,
    ensures
        AzureClientTokenProvider::spec_refresh(now, exchange).0 is None,
        !token_usable(AzureClientTokenProvider::spec_refresh(now, exchange).0, read_now),
{
}

/// After a successful refresh at `t0` of a token with declared lifetime
/// `l`, a read at `now` sees a usable token exactly while strictly less
/// than `l` minus the safety margin seconds have passed since `t0`.
pub proof fn lemma_refresh_validity_window(t0: u64, secret: String, l: u64, now: u64)
    requires
        t0 + l <= u64::MAX,
    ensures
        ({
            let slot = AzureClientTokenProvider::spec_refresh(
                t0,
                TokenExchange::Granted { secret, lifetime_secs: Some(l) },
            ).0;
            token_usable(slot, now) <==> now - t0 < l - AZURE_TOKEN_MIN_LIFETIME
        }),
{
}

/// Reading the cache is idempotent: two reads with no refresh in between
/// find the token in the same state, provided it did not expire between
/// them (it is usable at the later read, or already unusable at the first).
pub proof fn lemma_read_idempotent(slot: Option<Token>, now1: u64, now2: u64)
    requires
        now1 <= now2,
        token_usable(slot, now2) || !token_usable(slot, now1),
    ensures
        token_usable(slot, now1) == token_usable(slot, now2),
{
}

} // verus!
