//! Who sends a request, and what they may do.

use vstd::prelude::*;

use crate::api::oidc::Verdict;
use crate::text;
use crate::text::{same, split, strip_prefix};
use crate::token;
use crate::token::{bearer_token, constant_time_eq};

verus! {

/// What a sender may do.
#[derive(Debug, Clone, Copy, PartialEq, Eq, Structural)]
pub enum Role {
    Admin,
    ReadOnly,
}

impl Role {
    pub open spec fn text(self) -> Seq<char> {
        match self {
            Role::Admin => "admin"@,
            Role::ReadOnly => "read-only"@,
        }
    }

    /// The name in the record of requests.
    pub fn name(&self) -> (r: &'static str)
        ensures
            r@ == self.text(),
    {
        match self {
            Role::Admin => "admin",
            Role::ReadOnly => "read-only",
        }
    }
}

/// An error that is answered.
#[derive(Debug)]
pub struct ApiError {
    /// The HTTP status.
    pub status: u16,
    pub message: String,
}

/// The error has this status and this message.
pub open spec fn answers(e: ApiError, status: u16, message: Seq<char>) -> bool {
    e.status == status && e.message@ == message
}

impl ApiError {
    /// The sender may not do this.
    pub fn forbidden(message: String) -> (r: ApiError)
        ensures
            answers(r, 403, message@),
    {
        ApiError { status: 403, message }
    }

    /// There is no such thing.
    pub fn not_found(message: &str) -> (r: ApiError)
        ensures
            answers(r, 404, message@),
    {
        ApiError { status: 404, message: message.to_owned() }
    }

    /// The request makes no sense.
    pub fn bad_request(message: &str) -> (r: ApiError)
        ensures
            answers(r, 400, message@),
    {
        ApiError { status: 400, message: message.to_owned() }
    }
}

/// Only an administrator may change anything.
pub fn require_admin(role: Role) -> (r: Result<(), ApiError>)
    ensures
        match r {
            Ok(_) => role is Admin,
            Err(e) => !(role is Admin) && answers(e, 403, "admin role required"@),
        },
{
    match role {
        Role::Admin => Ok(()),
        Role::ReadOnly => Err(ApiError::forbidden("admin role required".to_owned())),
    }
}

// ---------------------------------------------------------------------------
// Credentials
// ---------------------------------------------------------------------------

/// A token that was handed out.
#[derive(Debug)]
pub struct TokenEntry {
    pub token: String,
    pub role: Role,
    pub name: Option<String>,
    pub tenant: Option<String>,
}

/// How senders are recognized.
#[derive(Debug)]
pub struct AuthPolicy {
    /// Everyone has to be recognized.
    pub must_authenticate: bool,
    /// The settings name a way to be recognized.
    pub has_credentials: bool,
    pub tokens: Vec<TokenEntry>,
    /// Tokens of an identity provider are checked.
    pub oidc: bool,
    /// Certificates of senders are checked.
    pub mtls: bool,
}

/// What a request says of its sender.
#[derive(Debug)]
pub struct Credentials {
    /// The header `Authorization`.
    pub authorization: Option<String>,
    /// The header `x-client-cert-cn`.
    pub cert_cn: Option<String>,
    /// The header `x-client-cert-role`.
    pub cert_role: Option<String>,
    /// The header `x-client-cert-tenant`.
    pub cert_tenant: Option<String>,
}

/// A sender who is recognized.
#[derive(Debug)]
pub struct Caller {
    pub role: Role,
    pub actor: String,
    pub tenant: Option<String>,
}

/// The reading of a sender who is recognized.
pub ghost struct Sender {
    pub role: Role,
    pub actor: Seq<char>,
    pub tenant: Option<Seq<char>>,
}

impl Caller {
    pub open spec fn view(self) -> Sender {
        Sender { role: self.role, actor: self.actor@, tenant: text::optional_string(self.tenant) }
    }
}

/// Whether a request goes on.
#[derive(Debug)]
pub enum Admission {
    /// A probe, which goes on without a sender.
    Probe,
    /// The sender is recognized.
    Known(Caller),
    /// The identity provider's token has to be checked.
    Ask(String),
    /// The sender is not recognized.
    Denied,
}

/// Whether a request goes on, in the specification.
pub ghost enum Ruling {
    Probe,
    Known(Sender),
    Ask(Seq<char>),
    Denied,
}

impl Admission {
    pub open spec fn view(self) -> Ruling {
        match self {
            Admission::Probe => Ruling::Probe,
            Admission::Known(c) => Ruling::Known(c.view()),
            Admission::Ask(t) => Ruling::Ask(t@),
            Admission::Denied => Ruling::Denied,
        }
    }
}

/// The paths of probes.
pub open spec fn is_probe(path: Seq<char>) -> bool {
    path == "/healthz"@ || path == "/readyz"@
}

/// Tells whether a path is that of a probe.
pub fn probe(path: &str) -> (r: bool)
    ensures
        r == is_probe(path@),
{
    same(path, "/healthz") || same(path, "/readyz")
}

/// The first token that is the one presented.
pub open spec fn entry_of(tokens: Seq<TokenEntry>, presented: Seq<char>) -> Option<TokenEntry>
    decreases tokens.len(),
{
    if tokens.len() == 0 {
        None
    } else {
        match entry_of(tokens.drop_last(), presented) {
            Some(e) => Some(e),
            None => if tokens.last().token@ == presented {
                Some(tokens.last())
            } else {
                None
            },
        }
    }
}

/// Who presents a token that was handed out.
pub open spec fn token_sender(e: TokenEntry) -> Sender {
    Sender {
        role: e.role,
        actor: match e.name {
            Some(n) => n@,
            None => "unnamed"@,
        },
        tenant: text::optional_string(e.tenant),
    }
}

/// Who presents a certificate.
pub open spec fn cert_sender(c: Credentials) -> Option<Sender> {
    match c.cert_cn {
        Some(cn) => if cn@.len() > 0 {
            Some(
                Sender {
                    role: if text::optional_string(c.cert_role) == Some("admin"@) {
                        Role::Admin
                    } else {
                        Role::ReadOnly
                    },
                    actor: cn@,
                    tenant: text::optional_string(c.cert_tenant),
                },
            )
        } else {
            None
        },
        None => None,
    }
}

/// There is a way to be recognized: the settings say so, a token was handed out, or tokens
/// of an identity provider are checked.
pub open spec fn recognizes(p: AuthPolicy) -> bool {
    p.has_credentials || p.tokens@.len() > 0 || p.oidc
}

/// Tells whether there is a way to be recognized.
fn can_recognize(p: &AuthPolicy) -> (r: bool)
    ensures
        r == recognizes(*p),
{
    p.has_credentials || p.tokens.len() > 0 || p.oidc
}

/// Whether a request goes on. Probes always do. Where nobody has to be recognized and
/// nobody can be, everyone is an administrator. A token that was handed out goes before
/// one of an identity provider, and a certificate counts only without a token.
pub open spec fn ruling(p: AuthPolicy, path: Seq<char>, c: Credentials) -> Ruling {
    if is_probe(path) {
        Ruling::Probe
    } else if !p.must_authenticate && !recognizes(p) {
        Ruling::Known(Sender { role: Role::Admin, actor: "anonymous-admin"@, tenant: None })
    } else {
        match token::bearer(text::optional_string(c.authorization)) {
            Some(t) => match entry_of(p.tokens@, t) {
                Some(e) => Ruling::Known(token_sender(e)),
                None => if p.oidc {
                    Ruling::Ask(t)
                } else {
                    Ruling::Denied
                },
            },
            None => if p.mtls {
                match cert_sender(c) {
                    Some(s) => Ruling::Known(s),
                    None => Ruling::Denied,
                }
            } else {
                Ruling::Denied
            },
        }
    }
}

/// Copies an optional text.
pub fn copy_option(s: &Option<String>) -> (r: Option<String>)
    ensures
        text::optional_string(r) == text::optional_string(*s),
{
    match s {
        Some(t) => Some(t.clone()),
        None => None,
    }
}

/// Finds the token that is presented.
fn find_entry<'a>(tokens: &'a Vec<TokenEntry>, presented: &str) -> (r: Option<&'a TokenEntry>)
    ensures
        match r {
            Some(e) => entry_of(tokens@, presented@) == Some(*e),
            None => entry_of(tokens@, presented@) is None,
        },
{
    let mut found: Option<usize> = None;
    let mut i: usize = 0;
    assert(tokens@.take(0) =~= Seq::<TokenEntry>::empty());
    while i < tokens.len()
        invariant
            i <= tokens.len(),
            match found {
                Some(k) => k < i && entry_of(tokens@.take(i as int), presented@) == Some(
                    tokens@[k as int],
                ),
                None => entry_of(tokens@.take(i as int), presented@) is None,
            },
        decreases tokens.len() - i,
    {
        assert(tokens@.take(i + 1).drop_last() =~= tokens@.take(i as int));
        if found.is_none() && constant_time_eq(tokens[i].token.as_str(), presented) {
            found = Some(i);
        }
        i += 1;
    }
    assert(tokens@.take(tokens.len() as int) =~= tokens@);
    match found {
        Some(k) => Some(&tokens[k]),
        None => None,
    }
}

/// Recognizes the sender by a certificate.
fn by_certificate(c: &Credentials) -> (r: Option<Caller>)
    ensures
        match (r, cert_sender(*c)) {
            (Some(x), Some(s)) => x.view() == s,
            (None, None) => true,
            _ => false,
        },
{
    let cn = match &c.cert_cn {
        None => {
            return None;
        },
        Some(cn) => cn,
    };
    if text::chars_of(cn.as_str()).len() == 0 {
        return None;
    }
    let admin = match &c.cert_role {
        Some(r) => same(r.as_str(), "admin"),
        None => false,
    };
    Some(
        Caller {
            role: if admin {
                Role::Admin
            } else {
                Role::ReadOnly
            },
            actor: cn.clone(),
            tenant: copy_option(&c.cert_tenant),
        },
    )
}

/// Decides whether a request goes on.
pub fn authenticate(p: &AuthPolicy, path: &str, c: &Credentials) -> (r: Admission)
    ensures
        r.view() == ruling(*p, path@, *c),
{
    if probe(path) {
        return Admission::Probe;
    }
    if !p.must_authenticate && !can_recognize(p) {
        return Admission::Known(
            Caller { role: Role::Admin, actor: "anonymous-admin".to_owned(), tenant: None },
        );
    }
    let header = match &c.authorization {
        Some(h) => Some(h.as_str()),
        None => None,
    };
    match bearer_token(header) {
        Some(t) => match find_entry(&p.tokens, t.as_str()) {
            Some(e) => Admission::Known(
                Caller {
                    role: e.role,
                    actor: match &e.name {
                        Some(n) => n.clone(),
                        None => "unnamed".to_owned(),
                    },
                    tenant: copy_option(&e.tenant),
                },
            ),
            None => if p.oidc {
                Admission::Ask(t)
            } else {
                Admission::Denied
            },
        },
        None => if p.mtls {
            match by_certificate(c) {
                Some(x) => Admission::Known(x),
                None => Admission::Denied,
            }
        } else {
            Admission::Denied
        },
    }
}

/// Decides whether a request goes on whose token an identity provider has signed.
pub fn after_check(verdict: Verdict) -> (r: Admission)
    ensures
        match verdict {
            Verdict::Accept(i) => r.view() == Ruling::Known(
                Sender { role: i.role, actor: i.actor@, tenant: text::optional_string(i.tenant) },
            ),
            _ => r.view() == Ruling::Denied,
        },
{
    match verdict {
        Verdict::Accept(i) => Admission::Known(
            Caller { role: i.role, actor: i.actor, tenant: i.tenant },
        ),
        _ => Admission::Denied,
    }
}

/// The answer to a sender who is not recognized.
pub fn unauthorized() -> (r: ApiError)
    ensures
        answers(r, 401, "missing or invalid bearer token"@),
{
    ApiError { status: 401, message: "missing or invalid bearer token".to_owned() }
}

/// Where senders have to be recognized, or can be, one who shows nothing is denied,
/// whatever else the settings say.
pub proof fn law_closed_without_credentials(p: AuthPolicy, path: Seq<char>, c: Credentials)
    requires
        p.must_authenticate || recognizes(p),
        !is_probe(path),
        c.authorization is None,
        c.cert_cn is None,
    ensures
        ruling(p, path, c) == Ruling::Denied,
{
}

/// A sender who presents a token is never recognized by a certificate.
pub proof fn law_token_goes_before_certificate(
    p: AuthPolicy,
    path: Seq<char>,
    c: Credentials,
    d: Credentials,
)
    requires
        c.authorization == d.authorization,
        token::bearer(text::optional_string(c.authorization)) is Some,
    ensures
        ruling(p, path, c) == ruling(p, path, d),
{
}

// ---------------------------------------------------------------------------
// Tenants
// ---------------------------------------------------------------------------

/// The usual form of an identifier, if the text is one.
pub uninterp spec fn uuid_read(text: Seq<char>) -> Option<Seq<char>>;

/// `uuid::Uuid::parse_str`: the text alone decides whether it is an identifier, and which.
/// It is returned in the usual form, with hyphens and in lower case.
#[verifier::external_body]
fn uuid_of(text: &str) -> (r: Option<String>)
    ensures
        text::optional_string(r) == uuid_read(text@),
{
    uuid::Uuid::parse_str(text).ok().map(|u| u.to_string())
}

/// What follows the prefix of paths that name a virtual machine.
pub open spec fn below_vms(path: Seq<char>) -> Option<Seq<char>> {
    match text::after_prefix(path, "/v1/vms/"@) {
        Some(rest) => Some(rest),
        None => text::after_prefix(path, "/v1/sandboxes/"@),
    }
}

/// The virtual machine that a path names.
pub open spec fn vm_in(path: Seq<char>) -> Option<Seq<char>> {
    match below_vms(path) {
        Some(rest) => uuid_read(text::split_on(rest, '/')[0]),
        None => None,
    }
}

/// Finds the virtual machine that a path names.
pub fn extract_vm_uuid(path: &str) -> (r: Option<String>)
    ensures
        text::optional_string(r) == vm_in(path@),
{
    let rest = match strip_prefix(path, "/v1/vms/") {
        Some(rest) => rest,
        None => match strip_prefix(path, "/v1/sandboxes/") {
            Some(rest) => rest,
            None => {
                return None;
            },
        },
    };
    first_segment(rest.as_str())
}

/// The identifier at the start of a path.
pub fn first_segment(rest: &str) -> (r: Option<String>)
    ensures
        text::optional_string(r) == uuid_read(text::split_on(rest@, '/')[0]),
{
    let parts = split(rest, '/');
    proof {
        lemma_split_is_not_empty(rest@, '/');
        assert(text::views(parts@)[0] == parts@[0]@);
    }
    uuid_of(parts[0].as_str())
}

/// Splitting leaves at least one part.
proof fn lemma_split_is_not_empty(s: Seq<char>, sep: char)
    ensures
        text::split_on(s, sep).len() > 0,
    decreases s.len(),
{
    if s.len() > 0 {
        lemma_split_is_not_empty(s.drop_last(), sep);
    }
}

/// A tenant sees what is its own; a sender without a tenant sees everything.
pub open spec fn sees(tenant: Option<Seq<char>>, owner: Option<Seq<char>>) -> bool {
    tenant is None || owner == tenant
}

/// Tells whether a sender sees what `owner` owns.
pub fn visible(tenant: &Option<String>, owner: &Option<String>) -> (r: bool)
    ensures
        r == sees(text::optional_string(*tenant), text::optional_string(*owner)),
{
    match tenant {
        None => true,
        Some(t) => match owner {
            None => false,
            Some(o) => same(t.as_str(), o.as_str()),
        },
    }
}

/// Which virtual machine has to be looked up before a request goes on.
pub fn guarded(tenant: &Option<String>, path: &str) -> (r: Option<String>)
    ensures
        text::optional_string(r) == if *tenant is Some {
            vm_in(path@)
        } else {
            None
        },
{
    match tenant {
        None => None,
        Some(_) => extract_vm_uuid(path),
    }
}

/// Decides whether a request for a virtual machine goes on. `owner` is whose it is, if it
/// is there. A virtual machine of another tenant is answered like one that is not there.
pub fn tenant_guard(tenant: &Option<String>, owner: &Option<Option<String>>) -> (r: Result<
    (),
    ApiError,
>)
    ensures
        match r {
            Ok(_) => *tenant is None || (*owner matches Some(o) && text::optional_string(o)
                == text::optional_string(*tenant)),
            Err(e) => !(*tenant is None || (*owner matches Some(o) && text::optional_string(o)
                == text::optional_string(*tenant))) && answers(e, 404, "VM not found"@),
        },
{
    if tenant.is_none() {
        return Ok(());
    }
    match owner {
        Some(o) => if visible(tenant, o) {
            Ok(())
        } else {
            Err(ApiError::not_found("VM not found"))
        },
        None => Err(ApiError::not_found("VM not found")),
    }
}

// ---------------------------------------------------------------------------
// Rates
// ---------------------------------------------------------------------------

/// By which name the requests of a sender are counted; probes are not counted.
pub open spec fn rate_key(path: Seq<char>, actor: Option<Seq<char>>) -> Option<Seq<char>> {
    if is_probe(path) {
        None
    } else {
        match actor {
            Some(a) => Some(a),
            None => Some("unknown"@),
        }
    }
}

/// By which name the requests of a sender are counted.
pub fn counted_as(path: &str, actor: &Option<String>) -> (r: Option<String>)
    ensures
        text::optional_string(r) == rate_key(path@, text::optional_string(*actor)),
{
    if probe(path) {
        return None;
    }
    match actor {
        Some(a) => Some(a.clone()),
        None => Some("unknown".to_owned()),
    }
}

/// The answer to a sender who sends too much, and when to try again, in seconds.
/// `wait` holds the whole seconds until a request is accepted.
pub fn throttled(wait: u64) -> (r: (ApiError, u64))
    requires
        wait < u64::MAX,
    ensures
        answers(r.0, 429, "too many requests; try again later"@),
        r.1 == wait + 1,
{
    (
        ApiError { status: 429, message: "too many requests; try again later".to_owned() },
        wait + 1,
    )
}

} // verus!
