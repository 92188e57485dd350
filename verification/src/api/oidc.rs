//! Tokens that an identity provider signs.
//!
//! The provider publishes its keys. A token names the key it is signed with, and says
//! who the sender is:
//! - the role: `fluxvm_role`, else `role`; only `admin` gives more than reading;
//! - the tenant: `fluxvm_tenant`, else `tenant`, else `org`;
//! - the name: `preferred_username`, else `email`, else `sub`.

use vstd::prelude::*;

use crate::api::auth::Role;
use crate::container::wire;
use crate::json;
use crate::json::{Js, Json};
use crate::keyed::Keyed;
use crate::text;
use crate::text::{cat, chars_of, same, to_lower, trim_end_char};

verus! {

/// Who a token says the sender is.
#[derive(Debug)]
pub struct OidcIdentity {
    pub role: Role,
    pub actor: String,
    pub tenant: Option<String>,
}

/// The reading of an identity.
pub ghost struct Identity {
    pub role: Role,
    pub actor: Seq<char>,
    pub tenant: Option<Seq<char>>,
}

impl OidcIdentity {
    pub open spec fn view(self) -> Identity {
        Identity {
            role: self.role,
            actor: self.actor@,
            tenant: text::optional_string(self.tenant),
        }
    }
}

/// The algorithms that tokens are signed with.
#[derive(Debug, Clone, Copy, PartialEq, Eq, Structural)]
pub enum SigningAlgorithm {
    RS256,
    RS384,
    RS512,
    ES256,
    ES384,
}

// ---------------------------------------------------------------------------
// Tokens and keys
// ---------------------------------------------------------------------------

/// The key that a token names, or why the token's header cannot be read.
pub uninterp spec fn jwt_key_id(token: Seq<char>) -> Result<Option<Seq<char>>, Seq<char>>;

/// The result `r` is `s`.
pub open spec fn key_id_is(
    r: Result<Option<String>, String>,
    s: Result<Option<Seq<char>>, Seq<char>>,
) -> bool {
    match (r, s) {
        (Ok(k), Ok(t)) => text::optional_string(k) == t,
        (Err(m), Err(e)) => m@ == e,
        _ => false,
    }
}

/// `jsonwebtoken::decode_header`: the token alone decides the `kid` of the header, or
/// the message of the error.
#[verifier::external_body]
fn key_id(token: &str) -> (r: Result<Option<String>, String>)
    ensures
        key_id_is(r, jwt_key_id(token@)),
{
    match jsonwebtoken::decode_header(token) {
        Ok(header) => Ok(header.kid),
        Err(e) => Err(e.to_string()),
    }
}

/// A published key.
#[derive(Debug)]
pub struct JwkEntry {
    pub key_id: Option<String>,
    /// The name of the algorithm.
    pub algorithm: Option<String>,
    /// The key, as JSON.
    pub jwk: String,
}

/// The reading of a published key.
pub ghost struct Jwk {
    pub key_id: Option<Seq<char>>,
    pub algorithm: Option<Seq<char>>,
    pub jwk: Seq<char>,
}

impl JwkEntry {
    pub open spec fn view(self) -> Jwk {
        Jwk {
            key_id: text::optional_string(self.key_id),
            algorithm: text::optional_string(self.algorithm),
            jwk: self.jwk@,
        }
    }
}

/// The readings of published keys.
pub open spec fn entries_view(v: Seq<JwkEntry>) -> Seq<Jwk> {
    v.map_values(|e: JwkEntry| e.view())
}

/// The keys that a document publishes, or why it cannot be read.
pub uninterp spec fn jwks_read(body: Seq<char>) -> Result<Seq<Jwk>, Seq<char>>;

/// The result `r` is `s`.
pub open spec fn jwks_are(
    r: Result<Vec<JwkEntry>, String>,
    s: Result<Seq<Jwk>, Seq<char>>,
) -> bool {
    match (r, s) {
        (Ok(v), Ok(t)) => entries_view(v@) == t,
        (Err(m), Err(e)) => m@ == e,
        _ => false,
    }
}

/// `serde_json::from_str` to a `jsonwebtoken::jwk::JwkSet`: the text alone decides the
/// keys, each with its `kid`, the name of its `alg` and itself as JSON, or the message of
/// the error.
#[verifier::external_body]
fn read_jwks(body: &str) -> (r: Result<Vec<JwkEntry>, String>)
    ensures
        jwks_are(r, jwks_read(body@)),
{
    let set: jsonwebtoken::jwk::JwkSet = serde_json::from_str(body).map_err(|e| e.to_string())?;
    Ok(set.keys.iter().map(|k| JwkEntry {
        key_id: k.common.key_id.clone(),
        algorithm: k.common.key_algorithm.map(|a| a.to_string()),
        jwk: serde_json::to_string(k).unwrap_or_default(),
    }).collect())
}

/// A signature can be verified with this key.
pub uninterp spec fn jwk_usable(jwk: Seq<char>) -> bool;

/// `jsonwebtoken::DecodingKey::from_jwk`: the key alone, given as JSON, decides whether
/// it can be used.
#[verifier::external_body]
fn key_usable(jwk: &str) -> (r: bool)
    ensures
        r == jwk_usable(jwk@),
{
    serde_json::from_str::<jsonwebtoken::jwk::Jwk>(jwk).is_ok_and(
        |k| jsonwebtoken::DecodingKey::from_jwk(&k).is_ok(),
    )
}

/// What a token says, if it is signed with this key and this algorithm.
pub uninterp spec fn jwt_opened(
    token: Seq<char>,
    jwk: Seq<char>,
    algorithm: SigningAlgorithm,
) -> Option<Js>;

/// A claim that is a text is this one, and a claim that lists texts has this one among
/// them. A claim that is absent, or of another form, says nothing.
pub open spec fn claim_allows(claim: Option<Js>, expected: Seq<char>) -> bool {
    match claim {
        Some(Js::Str(s)) => s == expected,
        Some(Js::Arr(v)) => wire::all_strings(v) ==> v.contains(Js::Str(expected)),
        _ => true,
    }
}

/// A token is meant for us: it does not name another issuer or audience, and it says when
/// it ends.
pub open spec fn claims_allow(claims: Js, issuer: Seq<char>, audience: Seq<char>) -> bool {
    &&& claim_allows(claims.get("iss"@), issuer)
    &&& claim_allows(claims.get("aud"@), audience)
    &&& claims.get("exp"@) matches Some(e) && (e is Int || e is Fraction)
}

/// `jsonwebtoken::decode` with the default validation for the algorithm, the issuer and
/// the audience: if it succeeds, the token is signed with the key, and its claims are what
/// is returned. Claims that are an object then do not name another issuer or audience, and
/// hold a number `exp`. Of claims that are no object nothing more is said. Whether it
/// succeeds depends on the present time too, which `exp` is compared with; of that nothing
/// is said.
#[verifier::external_body]
fn open_token(
    token: &str,
    jwk: &str,
    algorithm: SigningAlgorithm,
    issuer: &str,
    audience: &str,
) -> (r: Result<serde_json::Value, String>)
    ensures
        r matches Ok(v) ==> jwt_opened(token@, jwk@, algorithm) == Some(json::json_held(v)),
        r matches Ok(v) ==> json::json_held(v) is Obj ==> claims_allow(
            json::json_held(v),
            issuer@,
            audience@,
        ),
{
    let jwk: jsonwebtoken::jwk::Jwk = serde_json::from_str(jwk).map_err(|e| e.to_string())?;
    let key = jsonwebtoken::DecodingKey::from_jwk(&jwk).map_err(|e| e.to_string())?;
    let mut validation = jsonwebtoken::Validation::new(match algorithm {
        SigningAlgorithm::RS256 => jsonwebtoken::Algorithm::RS256,
        SigningAlgorithm::RS384 => jsonwebtoken::Algorithm::RS384,
        SigningAlgorithm::RS512 => jsonwebtoken::Algorithm::RS512,
        SigningAlgorithm::ES256 => jsonwebtoken::Algorithm::ES256,
        SigningAlgorithm::ES384 => jsonwebtoken::Algorithm::ES384,
    });
    validation.set_issuer(&[issuer]);
    validation.set_audience(&[audience]);
    jsonwebtoken::decode(token, &key, &validation).map(|d| d.claims).map_err(|e| e.to_string())
}

// ---------------------------------------------------------------------------
// Claims
// ---------------------------------------------------------------------------

/// A role by its name, in any case. A name that is not known gives reading only.
pub open spec fn role_of(raw: Option<Seq<char>>) -> Role {
    match raw {
        Some(s) => if text::lower(s) == "admin"@ {
            Role::Admin
        } else {
            Role::ReadOnly
        },
        None => Role::ReadOnly,
    }
}

/// Reads a role.
pub fn parse_role(raw: Option<&str>) -> (r: Role)
    ensures
        r == role_of(text::optional(raw)),
{
    match raw {
        Some(s) => {
            let name = to_lower(s);
            if same(name.as_str(), "admin") {
                Role::Admin
            } else {
                Role::ReadOnly
            }
        },
        None => Role::ReadOnly,
    }
}

/// The claim `key` can be read: it is absent or a text.
pub open spec fn readable(claims: Js, key: Seq<char>) -> bool {
    match claims.get(key) {
        None => true,
        Some(Js::Null) => true,
        Some(Js::Str(_)) => true,
        _ => false,
    }
}

/// The first text that is there.
pub open spec fn either(a: Option<Seq<char>>, b: Option<Seq<char>>) -> Option<Seq<char>> {
    match a {
        Some(s) => Some(s),
        None => b,
    }
}

/// All claims that are used can be read.
pub open spec fn all_readable(claims: Js) -> bool {
    &&& claims is Obj
    &&& readable(claims, "sub"@)
    &&& readable(claims, "preferred_username"@)
    &&& readable(claims, "email"@)
    &&& readable(claims, "role"@)
    &&& readable(claims, "fluxvm_role"@)
    &&& readable(claims, "tenant"@)
    &&& readable(claims, "fluxvm_tenant"@)
    &&& readable(claims, "org"@)
}

/// Who the claims say the sender is.
pub open spec fn identity_of(claims: Js) -> Option<Identity> {
    if !all_readable(claims) {
        None
    } else {
        Some(
            Identity {
                role: role_of(either(claims.str_at("fluxvm_role"@), claims.str_at("role"@))),
                actor: match either(
                    either(claims.str_at("preferred_username"@), claims.str_at("email"@)),
                    claims.str_at("sub"@),
                ) {
                    Some(s) => s,
                    None => "oidc"@,
                },
                tenant: match either(
                    either(claims.str_at("fluxvm_tenant"@), claims.str_at("tenant"@)),
                    claims.str_at("org"@),
                ) {
                    Some(s) => if s.len() > 0 {
                        Some(s)
                    } else {
                        None
                    },
                    None => None,
                },
            },
        )
    }
}

/// Tells whether a claim can be read.
fn can_read(claims: &Json, key: &str) -> (r: bool)
    ensures
        r == readable(claims.view(), key@),
{
    match claims.get(key) {
        None => true,
        Some(Json::Null) => true,
        Some(Json::Text(_)) => true,
        _ => false,
    }
}

/// The first of two claims that is a text.
fn first_of<'a>(claims: &'a Json, a: &str, b: &str) -> (r: Option<&'a str>)
    ensures
        text::optional(r) == either(claims.view().str_at(a@), claims.view().str_at(b@)),
{
    match claims.str_at(a) {
        Some(s) => Some(s),
        None => claims.str_at(b),
    }
}

/// Reads who the claims say the sender is.
pub fn read_identity(claims: &Json) -> (r: Option<OidcIdentity>)
    ensures
        match (r, identity_of(claims.view())) {
            (Some(i), Some(s)) => i.view() == s,
            (None, None) => true,
            _ => false,
        },
{
    match claims {
        Json::Object(_) => {},
        _ => {
            return None;
        },
    }
    let whole = can_read(claims, "sub") && can_read(claims, "preferred_username") && can_read(
        claims,
        "email",
    ) && can_read(claims, "role") && can_read(claims, "fluxvm_role") && can_read(claims, "tenant")
        && can_read(claims, "fluxvm_tenant") && can_read(claims, "org");
    if !whole {
        return None;
    }
    let role = parse_role(first_of(claims, "fluxvm_role", "role"));
    let actor = match first_of(claims, "preferred_username", "email") {
        Some(s) => s.to_owned(),
        None => match claims.str_at("sub") {
            Some(s) => s.to_owned(),
            None => "oidc".to_owned(),
        },
    };
    let named = match first_of(claims, "fluxvm_tenant", "tenant") {
        Some(s) => Some(s),
        None => claims.str_at("org"),
    };
    let tenant = match named {
        Some(s) => if chars_of(s).len() > 0 {
            Some(s.to_owned())
        } else {
            None
        },
        None => None,
    };
    Some(OidcIdentity { role, actor, tenant })
}

/// Only the claim of a role gives more than reading: the first of the two claims that is
/// there is `admin`.
pub proof fn law_admin_is_claimed(claims: Js)
    requires
        identity_of(claims) matches Some(i) && i.role is Admin,
    ensures
        either(claims.str_at("fluxvm_role"@), claims.str_at("role"@)) matches Some(s) && text::lower(s)
            == "admin"@,
{
}

// ---------------------------------------------------------------------------
// Keys that are kept
// ---------------------------------------------------------------------------

/// How long keys are used before they are fetched again, in seconds.
pub const KEY_LIFETIME_SECS: u64 = 3600;

/// A key that is kept.
#[derive(Debug)]
pub struct CachedKey {
    pub algorithm: SigningAlgorithm,
    pub jwk: String,
}

/// The reading of a key that is kept.
pub ghost struct SigningKey {
    pub algorithm: SigningAlgorithm,
    pub jwk: Seq<char>,
}

impl CachedKey {
    pub open spec fn view(self) -> SigningKey {
        SigningKey { algorithm: self.algorithm, jwk: self.jwk@ }
    }
}

/// The algorithm of a key; one that is not known counts as the usual one.
pub open spec fn algorithm_of(name: Option<Seq<char>>) -> SigningAlgorithm {
    match name {
        None => SigningAlgorithm::RS256,
        Some(s) => if s == "RS384"@ {
            SigningAlgorithm::RS384
        } else if s == "RS512"@ {
            SigningAlgorithm::RS512
        } else if s == "ES256"@ {
            SigningAlgorithm::ES256
        } else if s == "ES384"@ {
            SigningAlgorithm::ES384
        } else {
            SigningAlgorithm::RS256
        },
    }
}

fn read_algorithm(name: &Option<String>) -> (r: SigningAlgorithm)
    ensures
        r == algorithm_of(text::optional_string(*name)),
{
    match name {
        None => SigningAlgorithm::RS256,
        Some(s) => if same(s.as_str(), "RS384") {
            SigningAlgorithm::RS384
        } else if same(s.as_str(), "RS512") {
            SigningAlgorithm::RS512
        } else if same(s.as_str(), "ES256") {
            SigningAlgorithm::ES256
        } else if same(s.as_str(), "ES384") {
            SigningAlgorithm::ES384
        } else {
            SigningAlgorithm::RS256
        },
    }
}

/// The keys to keep: those with a name that can be used. Of keys with the same name the
/// last one counts.
pub open spec fn keys_of(entries: Seq<Jwk>) -> Map<Seq<char>, SigningKey>
    decreases entries.len(),
{
    if entries.len() == 0 {
        Map::empty()
    } else {
        let before = keys_of(entries.drop_last());
        let e = entries.last();
        match e.key_id {
            None => before,
            Some(id) => if jwk_usable(e.jwk) {
                before.insert(id, SigningKey { algorithm: algorithm_of(e.algorithm), jwk: e.jwk })
            } else {
                before
            },
        }
    }
}

/// Checks tokens of one provider.
#[derive(Debug)]
pub struct OidcValidator {
    pub issuer: String,
    pub audience: String,
    pub keys: Keyed<CachedKey>,
    /// When the keys were fetched, in seconds.
    pub fetched_at: Option<u64>,
    /// Where the keys are published.
    pub jwks_uri: Option<String>,
}

/// Where the keys are to be fetched.
#[derive(Debug)]
pub enum KeySource {
    /// At the place that is known.
    Published(String),
    /// At the place that the provider's description of itself gives.
    Described(String),
}

/// The readings of keys that are kept.
pub open spec fn keys_view(m: Map<Seq<char>, CachedKey>) -> Map<Seq<char>, SigningKey> {
    m.map_values(|k: CachedKey| k.view())
}

/// What a check of a token leads to.
#[derive(Debug)]
pub enum Verdict {
    /// The keys have to be fetched.
    Refresh,
    Accept(OidcIdentity),
    Refuse(String),
}

/// A token is accepted as coming from `i`: it is signed with the key, meant for us, and
/// says so.
pub open spec fn vouches(
    token: Seq<char>,
    key: SigningKey,
    issuer: Seq<char>,
    audience: Seq<char>,
    i: Identity,
) -> bool {
    match jwt_opened(token, key.jwk, key.algorithm) {
        Some(claims) => claims_allow(claims, issuer, audience) && identity_of(claims) == Some(i),
        None => false,
    }
}

/// A token is refused with the words `m`: it could not be opened, and the words tell why,
/// or it was, and the typed reader has a fault to find with its claims, or they do not say
/// who the sender is.
pub open spec fn turns_away(
    token: Seq<char>,
    key: SigningKey,
    issuer: Seq<char>,
    audience: Seq<char>,
    fault: Option<Seq<char>>,
    m: Seq<char>,
) -> bool {
    exists|opened: Result<Js, Seq<char>>| #[trigger]
        judgement(opened, fault) == Err::<Identity, Seq<char>>(m) && (opened matches Ok(claims)
            ==> jwt_opened(token, key.jwk, key.algorithm) == Some(claims) && (claims is Obj
            ==> claims_allow(claims, issuer, audience)))
}

/// The keys are recent.
pub open spec fn fresh(fetched_at: Option<u64>, now: u64) -> bool {
    fetched_at matches Some(t) && now - t < KEY_LIFETIME_SECS
}

impl OidcValidator {
    pub open spec fn wf(self) -> bool {
        self.keys.wf()
    }

    /// The keys that are kept.
    pub open spec fn kept(self) -> Map<Seq<char>, SigningKey> {
        keys_view(self.keys.view())
    }

    /// Checks tokens of the provider `issuer` for `audience`. No keys are known yet.
    pub fn new(issuer: String, audience: String) -> (r: OidcValidator)
        ensures
            r.wf(),
            r.issuer@ == text::trim_end_char_of(issuer@, '/'),
            r.audience == audience,
            r.kept() == Map::<Seq<char>, SigningKey>::empty(),
            r.fetched_at is None,
            r.jwks_uri is None,
    {
        let r = OidcValidator {
            issuer: trim_end_char(issuer.as_str(), '/'),
            audience,
            keys: Keyed::new(),
            fetched_at: None,
            jwks_uri: None,
        };
        assert(r.kept() =~= Map::<Seq<char>, SigningKey>::empty());
        r
    }

    /// Where the provider describes itself.
    pub fn discovery_url(&self) -> (r: String)
        ensures
            r@ == self.issuer@ + "/.well-known/openid-configuration"@,
    {
        cat(self.issuer.as_str(), "/.well-known/openid-configuration")
    }

    /// Where the keys are to be fetched: the provider is asked only once.
    pub fn key_source(&self) -> (r: KeySource)
        ensures
            match self.jwks_uri {
                Some(uri) => r matches KeySource::Published(u) && u@ == uri@,
                None => r matches KeySource::Described(u) && u@ == self.issuer@
                    + "/.well-known/openid-configuration"@,
            },
    {
        match &self.jwks_uri {
            Some(uri) => KeySource::Published(uri.clone()),
            None => KeySource::Described(self.discovery_url()),
        }
    }

    /// Keeps the keys that a document publishes, in place of those known before.
    pub fn refresh(&mut self, body: &str, jwks_uri: String, now: u64) -> (r: Result<(), String>)
        ensures
            final(self).issuer == old(self).issuer,
            final(self).audience == old(self).audience,
            match jwks_read(body@) {
                Ok(entries) => {
                    &&& r is Ok
                    &&& final(self).wf()
                    &&& final(self).kept() == keys_of(entries)
                    &&& final(self).fetched_at == Some(now)
                    &&& final(self).jwks_uri == Some(jwks_uri)
                },
                Err(e) => {
                    &&& r matches Err(m) && m@ == "parse JWKS: "@ + e
                    &&& *final(self) == *old(self)
                },
            },
    {
        let entries = match read_jwks(body) {
            Err(e) => {
                return Err(cat("parse JWKS: ", e.as_str()));
            },
            Ok(v) => v,
        };
        let mut keys: Keyed<CachedKey> = Keyed::new();
        let mut i: usize = 0;
        assert(keys_view(keys.view()) =~= Map::<Seq<char>, SigningKey>::empty());
        while i < entries.len()
            invariant
                i <= entries.len(),
                keys.wf(),
                keys_view(keys.view()) == keys_of(entries_view(entries@.take(i as int))),
            decreases entries.len() - i,
        {
            let entry = &entries[i];
            proof {
                let next = entries_view(entries@.take(i + 1));
                assert(next.drop_last() =~= entries_view(entries@.take(i as int)));
                assert(next.last() == entry.view());
            }
            if let Some(id) = &entry.key_id {
                if key_usable(entry.jwk.as_str()) {
                    let key = CachedKey {
                        algorithm: read_algorithm(&entry.algorithm),
                        jwk: entry.jwk.clone(),
                    };
                    let ghost before = keys.view();
                    keys.insert(id.clone(), key);
                    assert(keys_view(keys.view()) =~= keys_view(before).insert(id@, key.view()));
                }
            }
            i += 1;
        }
        assert(entries@.take(entries.len() as int) =~= entries@);
        self.keys = keys;
        self.fetched_at = Some(now);
        self.jwks_uri = Some(jwks_uri);
        Ok(())
    }

    /// Checks a token with a key. What is accepted is signed with the key, meant for us,
    /// and says who the sender is. Whether a token has ended depends on the time.
    fn check(&self, token: &str, key: &CachedKey, fault: Option<String>) -> (r: Verdict)
        ensures
            match r {
                Verdict::Refresh => false,
                Verdict::Accept(i) => fault is None && vouches(
                    token@,
                    key.view(),
                    self.issuer@,
                    self.audience@,
                    i.view(),
                ),
                Verdict::Refuse(m) => turns_away(
                    token@,
                    key.view(),
                    self.issuer@,
                    self.audience@,
                    text::optional_string(fault),
                    m@,
                ),
            },
    {
        let opened = open_token(
            token,
            key.jwk.as_str(),
            key.algorithm,
            self.issuer.as_str(),
            self.audience.as_str(),
        );
        let opened = match opened {
            Ok(v) => Ok(Json::from_value(v)),
            Err(e) => Err(e),
        };
        let ghost reading: Result<Js, Seq<char>> = match &opened {
            Ok(j) => Ok(j.view()),
            Err(e) => Err(e@),
        };
        let ghost words = text::optional_string(fault);
        let r = judge(opened, fault);
        proof {
            if let Verdict::Refuse(m) = &r {
                assert(judgement(reading, words) == Err::<Identity, Seq<char>>(m@));
            }
        }
        r
    }

    /// Checks a token. The keys are fetched first where the one that the token names is
    /// not known or not recent. `fault` is what the typed reader of claims has against those
    /// of the token.
    pub fn validate(&self, token: &str, now: u64, fault: Option<String>) -> (r: Verdict)
        requires
            self.wf(),
        ensures
            match jwt_key_id(token@) {
                Err(e) => r matches Verdict::Refuse(m) && m@ == "OIDC JWT header: "@ + e,
                Ok(None) => r matches Verdict::Refuse(m) && m@ == "OIDC JWT missing kid"@,
                Ok(Some(id)) => if self.kept().contains_key(id) && fresh(self.fetched_at, now) {
                    match r {
                        Verdict::Refresh => false,
                        Verdict::Accept(i) => fault is None && vouches(
                            token@,
                            self.kept()[id],
                            self.issuer@,
                            self.audience@,
                            i.view(),
                        ),
                        Verdict::Refuse(m) => turns_away(
                            token@,
                            self.kept()[id],
                            self.issuer@,
                            self.audience@,
                            text::optional_string(fault),
                            m@,
                        ),
                    }
                } else {
                    r is Refresh
                },
            },
    {
        let id = match key_id(token) {
            Err(e) => {
                return Verdict::Refuse(cat("OIDC JWT header: ", e.as_str()));
            },
            Ok(None) => {
                return Verdict::Refuse("OIDC JWT missing kid".to_owned());
            },
            Ok(Some(id)) => id,
        };
        let recent = match self.fetched_at {
            Some(t) => now < t || now - t < KEY_LIFETIME_SECS,
            None => false,
        };
        match self.keys.get(id.as_str()) {
            None => Verdict::Refresh,
            Some(key) => if recent {
                self.check(token, key, fault)
            } else {
                Verdict::Refresh
            },
        }
    }

    /// Checks a token after the keys were fetched. `fault` is what the typed reader of claims
    /// has against those of the token.
    pub fn validate_refreshed(&self, token: &str, fault: Option<String>) -> (r: Verdict)
        requires
            self.wf(),
        ensures
            match jwt_key_id(token@) {
                Err(e) => r matches Verdict::Refuse(m) && m@ == "OIDC JWT header: "@ + e,
                Ok(None) => r matches Verdict::Refuse(m) && m@ == "OIDC JWT missing kid"@,
                Ok(Some(id)) => if self.kept().contains_key(id) {
                    match r {
                        Verdict::Refresh => false,
                        Verdict::Accept(i) => fault is None && vouches(
                            token@,
                            self.kept()[id],
                            self.issuer@,
                            self.audience@,
                            i.view(),
                        ),
                        Verdict::Refuse(m) => turns_away(
                            token@,
                            self.kept()[id],
                            self.issuer@,
                            self.audience@,
                            text::optional_string(fault),
                            m@,
                        ),
                    }
                } else {
                    r matches Verdict::Refuse(m) && m@ == "OIDC JWKS has no key for kid="@ + id
                },
            },
    {
        let id = match key_id(token) {
            Err(e) => {
                return Verdict::Refuse(cat("OIDC JWT header: ", e.as_str()));
            },
            Ok(None) => {
                return Verdict::Refuse("OIDC JWT missing kid".to_owned());
            },
            Ok(Some(id)) => id,
        };
        match self.keys.get(id.as_str()) {
            None => Verdict::Refuse(cat("OIDC JWKS has no key for kid=", id.as_str())),
            Some(key) => self.check(token, key, fault),
        }
    }
}

/// What a token that was opened, or could not be, leads to. Claims that the typed reader
/// finds a fault with are refused with its words.
pub open spec fn judgement(opened: Result<Js, Seq<char>>, fault: Option<Seq<char>>) -> Result<
    Identity,
    Seq<char>,
> {
    match (opened, fault) {
        (Err(e), _) => Err("OIDC JWT validate: "@ + e),
        (Ok(_), Some(e)) => Err("OIDC JWT validate: "@ + e),
        (Ok(claims), None) => match identity_of(claims) {
            Some(i) => Ok(i),
            None => Err("OIDC JWT validate: claims are not readable"@),
        },
    }
}

/// Judges a token that was opened, or could not be. `fault` is what the typed reader of
/// claims has against those of the token.
pub fn judge(opened: Result<Json, String>, fault: Option<String>) -> (r: Verdict)
    ensures
        match (
            r,
            judgement(
                match opened {
                    Ok(j) => Ok(j.view()),
                    Err(e) => Err(e@),
                },
                text::optional_string(fault),
            ),
        ) {
            (Verdict::Accept(i), Ok(s)) => i.view() == s,
            (Verdict::Refuse(m), Err(e)) => m@ == e,
            _ => false,
        },
{
    match (opened, fault) {
        (Err(e), _) => Verdict::Refuse(cat("OIDC JWT validate: ", e.as_str())),
        (Ok(_), Some(e)) => Verdict::Refuse(cat("OIDC JWT validate: ", e.as_str())),
        (Ok(j), None) => match read_identity(&j) {
            Some(i) => Verdict::Accept(i),
            None => Verdict::Refuse("OIDC JWT validate: claims are not readable".to_owned()),
        },
    }
}

/// The place of the keys in the provider's description of itself.
pub open spec fn published_at(description: Seq<char>) -> Option<Seq<char>> {
    match json::json_read(description) {
        Err(_) => None,
        Ok(j) => j.str_at("jwks_uri"@),
    }
}

/// Reads where the provider publishes its keys.
pub fn read_discovery(description: &str) -> (r: Option<String>)
    ensures
        text::optional_string(r) == published_at(description@),
{
    match Json::parse(description) {
        Err(_) => None,
        Ok(j) => match j.str_at("jwks_uri") {
            Some(s) => Some(s.to_owned()),
            None => None,
        },
    }
}

/// Tokens of a provider are checked where both its name and the audience are set.
pub fn build_oidc(issuer: &Option<String>, audience: &Option<String>) -> (r: Option<OidcValidator>)
    ensures
        match (*issuer, *audience) {
            (Some(i), Some(a)) => r matches Some(v) && v.wf() && v.issuer@
                == text::trim_end_char_of(i@, '/') && v.audience@ == a@ && v.kept() == Map::<
                Seq<char>,
                SigningKey,
            >::empty() && v.fetched_at is None,
            _ => r is None,
        },
{
    match (issuer, audience) {
        (Some(i), Some(a)) => Some(OidcValidator::new(i.clone(), a.clone())),
        _ => None,
    }
}

} // verus!
