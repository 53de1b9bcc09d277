//! The installation credential broker.
//!
//! A webhook event carries the id of the GitHub App installation that
//! produced it. To act on the event the handler needs a short-lived access
//! token scoped to that installation. The broker keeps a cache of such
//! tokens, hands out a live one when it has it, and otherwise grants the
//! caller the right to perform one token exchange: mint a signed app-level
//! assertion, locate the installation in the app's installation list, and
//! trade the assertion for an access token at the installation's token
//! endpoint. The network calls themselves happen outside the broker; the
//! broker decides, records which exchanges are in flight so that concurrent
//! resolutions for one installation collapse into a single exchange, and
//! stores the outcome.

use vstd::prelude::*;
use std::collections::HashMap;
use std::collections::HashSet;

verus! {

broadcast use vstd::std_specs::hash::group_hash_axioms;

/// How long a minted app-level assertion stays valid, in seconds.
pub const APP_ASSERTION_LIFETIME_SECONDS: u64 = 600;

/// The process-wide identity of the GitHub App: loaded once at startup and
/// never mutated. Only used to mint short-lived signed assertions.
pub struct AppIdentity {
    /// Numeric identifier of the GitHub App.
    pub app_id: u64,
    /// PEM-encoded RSA private key of the app.
    pub private_key: String,
}

/// A short-lived access token scoped to one installation, together with the
/// moment it stops being usable (seconds since the epoch).
pub struct InstallationCredential {
    /// The installation the token is scoped to.
    pub installation_id: u64,
    /// The bearer token itself.
    pub access_token: String,
    /// First moment at which the token must no longer be handed out.
    pub expires_at: u64,
}

impl InstallationCredential {
    /// An owned copy of the credential.
    pub fn duplicate(&self) -> (r: Self)
        ensures
            r == *self,
    {
        InstallationCredential {
            installation_id: self.installation_id,
            access_token: self.access_token.clone(),
            expires_at: self.expires_at,
        }
    }
}

/// What a completed token exchange handed back: the token and its expiry.
pub struct TokenGrant {
    /// The bearer token the exchange endpoint issued.
    pub token: String,
    /// When the issued token expires (seconds since the epoch).
    pub expires_at: u64,
}

/// Why a credential could not be resolved. Every variant fails only the
/// current request; nothing is retried here.
#[derive(Clone, Copy, Debug, PartialEq, Eq)]
pub enum BrokerError {
    /// The app has no installation with the requested id: the app is not
    /// installed on the source repository, or the id is forged or stale.
    InstallationNotFound,
    /// The installation listing or the token exchange failed to reach
    /// GitHub, or timed out.
    Network,
    /// GitHub rejected the app-level assertion.
    Unauthorized,
}

/// One row of the app's installation list, reduced to what the broker
/// reads: the installation id and its token-issuance endpoint.
pub struct InstallationSummary {
    /// Identifier of the installation.
    pub id: u64,
    /// URL to POST to in order to obtain an installation access token.
    pub access_tokens_url: String,
}

/// Locate the installation a webhook event came from in the app's
/// installation list. Returns the position of the first row whose id
/// matches, and `InstallationNotFound` exactly when no row matches.
pub fn lookup_installation(installations: &Vec<InstallationSummary>, installation_id: u64) -> (r:
    Result<usize, BrokerError>)
    ensures
        r matches Ok(i) ==> i < installations@.len() && installations@[i as int].id
            == installation_id && forall|j: int|
            0 <= j < i ==> installations@[j].id != installation_id,
        r matches Err(e) ==> e == BrokerError::InstallationNotFound && forall|j: int|
            0 <= j < installations@.len() ==> installations@[j].id != installation_id,
{
    let n = installations.len();
    for i in 0..n
        invariant
            n == installations@.len(),
            forall|j: int| 0 <= j < i ==> installations@[j].id != installation_id,
    {
        if installations[i].id == installation_id {
            return Ok(i);
        }
    }
    Err(BrokerError::InstallationNotFound)
}

/// The RS256-signed JSON web token for the app claims `{iss, iat, exp}`
/// under the given PEM-encoded RSA key, as the `jsonwebtoken` crate
/// produces it. RS256 signing is deterministic, so the token is a function
/// of the key and the claims alone.
pub uninterp spec fn rs256_app_jwt(key_pem: Seq<char>, iss: u64, iat: u64, exp: u64) -> Seq<char>;

/// Relies on `jsonwebtoken::encode` with `Algorithm::RS256` to sign the
/// claims, and on `jsonwebtoken::EncodingKey::from_rsa_pem` to read the
/// key. Returns `None` when the key does not parse or signing fails.
#[verifier::external_body]
fn sign_rs256_claims(key_pem: &str, iss: u64, iat: u64, exp: u64) -> (r: Option<String>)
    ensures
        r matches Some(t) ==> t@ == rs256_app_jwt(key_pem@, iss, iat, exp),
{
    let key = match jsonwebtoken::EncodingKey::from_rsa_pem(key_pem.as_bytes()) {
        Ok(k) => k,
        Err(_) => return None,
    };
    let mut claims = serde_json::Map::new();
    claims.insert("iss".to_string(), serde_json::Value::from(iss));
    claims.insert("iat".to_string(), serde_json::Value::from(iat));
    claims.insert("exp".to_string(), serde_json::Value::from(exp));
    let header = jsonwebtoken::Header::new(jsonwebtoken::Algorithm::RS256);
    jsonwebtoken::encode(&header, &serde_json::Value::Object(claims), &key).ok()
}

/// Mint the app-level signed assertion used as the bearer credential for
/// the installation listing and the token exchange: claims
/// `{iss: app_id, iat: now, exp: now + 600}`, signed with the app's RSA
/// key. `None` means the key is misconfigured, which is startup-class and
/// not a per-request condition.
pub fn mint_assertion(identity: &AppIdentity, now: u64) -> (r: Option<String>)
    requires
        now + APP_ASSERTION_LIFETIME_SECONDS <= u64::MAX,
    ensures
        r matches Some(t) ==> t@ == rs256_app_jwt(
            identity.private_key@,
            identity.app_id,
            now,
            (now + APP_ASSERTION_LIFETIME_SECONDS) as u64,
        ),
{
    sign_rs256_claims(
        identity.private_key.as_str(),
        identity.app_id,
        now,
        now + APP_ASSERTION_LIFETIME_SECONDS,
    )
}

/// Whether the cache holds a credential for `id` that is still live at
/// `now`: an entry whose expiry lies strictly in the future.
pub open spec fn has_live(cache: Map<u64, InstallationCredential>, id: u64, now: u64) -> bool {
    cache.contains_key(id) && now < cache[id].expires_at
}

/// Whether a resolution arriving at this state wins the right to perform
/// the token exchange: no live entry and no exchange already in flight.
pub open spec fn step_starts_exchange(
    cache: Map<u64, InstallationCredential>,
    flights: Set<u64>,
    id: u64,
    now: u64,
) -> bool {
    !has_live(cache, id, now) && !flights.contains(id)
}

/// Whether a resolution arriving at this state must wait for an exchange
/// that another caller already has in flight.
pub open spec fn step_waits(
    cache: Map<u64, InstallationCredential>,
    flights: Set<u64>,
    id: u64,
    now: u64,
) -> bool {
    !has_live(cache, id, now) && flights.contains(id)
}

/// What one call to [`CredentialBroker::begin_resolve`] tells the caller
/// to do.
pub enum ResolveStep {
    /// A live cached credential; use it, no exchange happens.
    Ready(InstallationCredential),
    /// The caller won the right to perform the token exchange and must
    /// report its outcome through [`CredentialBroker::finish_resolve`].
    Exchange,
    /// Another caller's exchange for this installation is in flight; wait
    /// for it instead of starting a second one.
    Busy,
}

/// The broker's state: the credential cache and the set of installation
/// ids with an exchange in flight. The broker is the sole mutator of the
/// cache; callers only ever receive copies of its entries.
pub struct CredentialBroker {
    cache: HashMap<u64, InstallationCredential>,
    in_flight: HashSet<u64>,
}

impl CredentialBroker {
    /// The credentials currently stored, by installation id.
    pub closed spec fn cache_view(&self) -> Map<u64, InstallationCredential> {
        self.cache@
    }

    /// The installation ids with a token exchange in flight.
    pub closed spec fn flights(&self) -> Set<u64> {
        self.in_flight@
    }

    /// A broker with an empty cache and nothing in flight.
    pub fn new() -> (r: Self)
        ensures
            r.cache_view() == Map::<u64, InstallationCredential>::empty(),
            r.flights() == Set::<u64>::empty(),
    {
        CredentialBroker { cache: HashMap::new(), in_flight: HashSet::new() }
    }

    /// One resolution step for `installation_id` at time `now`.
    ///
    /// A live cached credential is returned as `Ready` — never one with
    /// `expires_at <= now`. Otherwise the caller either wins the exchange
    /// (`Exchange`, recorded in the in-flight set) or finds one already in
    /// flight (`Busy`). The cache itself is not changed here. The cache
    /// check and the grant of the exchange are one step on the broker's
    /// state: under a lock, a caller that wins the exchange cannot race a
    /// cache fill that landed between checking and winning.
    pub fn begin_resolve(&mut self, installation_id: u64, now: u64) -> (r: ResolveStep)
        ensures
            final(self).cache_view() == old(self).cache_view(),
            r matches ResolveStep::Ready(c) ==> c == old(self).cache_view()[installation_id]
                && now < c.expires_at,
            r is Ready <==> has_live(old(self).cache_view(), installation_id, now),
            r is Exchange <==> step_starts_exchange(
                old(self).cache_view(),
                old(self).flights(),
                installation_id,
                now,
            ),
            r is Busy <==> step_waits(
                old(self).cache_view(),
                old(self).flights(),
                installation_id,
                now,
            ),
            r is Exchange ==> final(self).flights() == old(self).flights().insert(installation_id),
            !(r is Exchange) ==> final(self).flights() == old(self).flights(),
    {
        match self.cache.get(&installation_id) {
            Some(cred) => {
                if now < cred.expires_at {
                    return ResolveStep::Ready(cred.duplicate());
                }
            },
            None => {},
        }
        if self.in_flight.contains(&installation_id) {
            ResolveStep::Busy
        } else {
            self.in_flight.insert(installation_id);
            ResolveStep::Exchange
        }
    }

    /// Record the outcome of the exchange that `begin_resolve` granted and
    /// clear its in-flight mark. A grant is stored as the credential for
    /// `installation_id`, atomically replacing any stale entry, and a copy
    /// is returned; a failure leaves the cache untouched and is passed
    /// through.
    pub fn finish_resolve(&mut self, installation_id: u64, outcome: Result<
        TokenGrant,
        BrokerError,
    >) -> (r: Result<InstallationCredential, BrokerError>)
        ensures
            final(self).flights() == old(self).flights().remove(installation_id),
            outcome matches Ok(g) ==> r matches Ok(c) && c.installation_id == installation_id
                && c.access_token == g.token && c.expires_at == g.expires_at
                && final(self).cache_view() == old(self).cache_view().insert(installation_id, c),
            outcome matches Err(e) ==> r == Err::<InstallationCredential, BrokerError>(e)
                && final(self).cache_view() == old(self).cache_view(),
    {
        self.in_flight.remove(&installation_id);
        match outcome {
            Ok(grant) => {
                let cred = InstallationCredential {
                    installation_id,
                    access_token: grant.token,
                    expires_at: grant.expires_at,
                };
                let handed_out = cred.duplicate();
                self.cache.insert(installation_id, cred);
                Ok(handed_out)
            },
            Err(e) => Err(e),
        }
    }
}

/// Cache behaviour: once a resolution has stored a credential for an
/// installation, a later resolution before its expiry finds it live — and
/// finds that very credential, so no further exchange starts — while a
/// resolution at or after its expiry finds no live entry and must exchange
/// anew.
pub proof fn lemma_cache_reuse_and_refresh(
    cache: Map<u64, InstallationCredential>,
    id: u64,
    cred: InstallationCredential,
    now_before: u64,
    now_after: u64,
)
    requires
        now_before < cred.expires_at,
        cred.expires_at <= now_after,
    ensures
        has_live(cache.insert(id, cred), id, now_before),
        cache.insert(id, cred)[id] == cred,
        !has_live(cache.insert(id, cred), id, now_after),
{
}

/// Single-flight: when a resolution wins the exchange for an installation
/// under a cold cache, the in-flight mark it leaves behind makes every
/// further resolution for the same installation wait rather than start a
/// second exchange, for as long as the cache stays cold and the mark
/// stands.
pub proof fn lemma_single_flight(
    cache: Map<u64, InstallationCredential>,
    flights: Set<u64>,
    id: u64,
    now_first: u64,
    now_second: u64,
)
    requires
        step_starts_exchange(cache, flights, id, now_first),
        !has_live(cache, id, now_second),
    ensures
        step_waits(cache, flights.insert(id), id, now_second),
        !step_starts_exchange(cache, flights.insert(id), id, now_second),
{
}

} // verus!
