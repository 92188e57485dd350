//! What the HTTP interface comes to: who is recognized as whom, who sees and creates what,
//! and what the counters say.

use vstd::prelude::*;

use crate::api::auth;
use crate::api::auth::{ApiError, AuthPolicy, Credentials, Ruling, TokenEntry};
use crate::api::metrics;
use crate::api::metrics::Counters;
use crate::api::oidc;
use crate::api::oidc::Jwk;
use crate::api::records;
use crate::api::records::{PoolRecord, Quotas, VmRecord};
use crate::api::requests;
use crate::api::requests::ProxyStage;
use crate::api::routes;
use crate::api::routes::{Endpoint, Route};
use crate::json;
use crate::json::Js;
use crate::text;
use crate::vm::{BackendKind, VmStatus};

verus! {

// ---------------------------------------------------------------------------
// Senders
// ---------------------------------------------------------------------------

/// The header presents the token.
pub open spec fn presents(c: Credentials, t: Seq<char>) -> bool {
    c.authorization matches Some(h) && h@ == "Bearer "@ + t
}

/// The first entry with a token is found.
proof fn lemma_entry(tokens: Seq<TokenEntry>, i: int)
    requires
        0 <= i < tokens.len(),
        forall|j: int| 0 <= j < i ==> (#[trigger] tokens[j]).token@ != tokens[i].token@,
    ensures
        auth::entry_of(tokens, tokens[i].token@) == Some(tokens[i]),
    decreases tokens.len(),
{
    let before = tokens.drop_last();
    if i < before.len() {
        assert(before[i] == tokens[i]);
        assert forall|j: int| 0 <= j < i implies (#[trigger] before[j]).token@ != before[i].token@ by {
            assert(before[j] == tokens[j]);
        }
        lemma_entry(before, i);
    } else {
        lemma_no_entry(before, tokens[i].token@);
    }
}

/// Without an entry for a token none is found.
proof fn lemma_no_entry(tokens: Seq<TokenEntry>, t: Seq<char>)
    requires
        forall|j: int| 0 <= j < tokens.len() ==> (#[trigger] tokens[j]).token@ != t,
    ensures
        auth::entry_of(tokens, t) is None,
    decreases tokens.len(),
{
    if tokens.len() > 0 {
        let before = tokens.drop_last();
        assert forall|j: int| 0 <= j < before.len() implies (#[trigger] before[j]).token@ != t by {
            assert(before[j] == tokens[j]);
        }
        lemma_no_entry(before, t);
        assert(tokens[tokens.len() - 1].token@ != t);
    }
}

/// The token of a header is what follows its first word.
proof fn lemma_bearer(c: Credentials, t: Seq<char>)
    requires
        presents(c, t),
    ensures
        crate::token::bearer(text::optional_string(c.authorization)) == Some(t),
{
    let h = c.authorization->0@;
    let p = "Bearer "@;
    assert(h.take(p.len() as int) =~= p);
    assert(h.skip(p.len() as int) =~= t);
}

/// One who presents a token that was handed out is who it was handed out to: with its role,
/// its name and its tenant.
pub proof fn law_tokens_say_who_sends(
    p: AuthPolicy,
    path: Seq<char>,
    c: Credentials,
    i: int,
)
    requires
        path != "/healthz"@,
        path != "/readyz"@,
        0 <= i < p.tokens@.len(),
        presents(c, p.tokens@[i].token@),
        forall|j: int| 0 <= j < i ==> (#[trigger] p.tokens@[j]).token@ != p.tokens@[i].token@,
    ensures
        auth::ruling(p, path, c) matches Ruling::Known(s) && s.role == p.tokens@[i].role && (
        p.tokens@[i].name matches Some(n) ==> s.actor == n@) && (p.tokens@[i].tenant matches Some(
            t,
        ) ==> s.tenant == Some(t@)) && (p.tokens@[i].tenant is None ==> s.tenant is None) && (
        p.tokens@[i].name is None ==> s.actor == "unnamed"@),
{
    lemma_bearer(c, p.tokens@[i].token@);
    lemma_entry(p.tokens@, i);
}

/// One who presents a token that nobody was given is not recognized by it; where there is an
/// identity provider, that very token is checked.
pub proof fn law_unknown_tokens_are_not_trusted(
    p: AuthPolicy,
    path: Seq<char>,
    c: Credentials,
    t: Seq<char>,
)
    requires
        path != "/healthz"@,
        path != "/readyz"@,
        p.must_authenticate || p.has_credentials || p.tokens@.len() > 0 || p.oidc,
        presents(c, t),
        forall|j: int| 0 <= j < p.tokens@.len() ==> (#[trigger] p.tokens@[j]).token@ != t,
    ensures
        p.oidc ==> auth::ruling(p, path, c) == Ruling::Ask(t),
        !p.oidc ==> auth::ruling(p, path, c) is Denied,
{
    lemma_bearer(c, t);
    lemma_no_entry(p.tokens@, t);
}

/// One who shows a certificate and no token is who the certificate names, where certificates
/// count; only the role of an administrator makes an administrator.
pub proof fn law_certificates_say_who_sends(
    p: AuthPolicy,
    path: Seq<char>,
    c: Credentials,
    name: String,
)
    requires
        path != "/healthz"@,
        path != "/readyz"@,
        p.must_authenticate || p.has_credentials || p.tokens@.len() > 0 || p.oidc,
        c.authorization is None,
        c.cert_cn == Some(name),
        name@.len() > 0,
    ensures
        !p.mtls ==> auth::ruling(p, path, c) is Denied,
        p.mtls ==> (auth::ruling(p, path, c) matches Ruling::Known(s) && s.actor == name@ && (
        s.role is Admin <==> (c.cert_role matches Some(r) && r@ == "admin"@)) && (
        c.cert_tenant matches Some(t) ==> s.tenant == Some(t@)) && (c.cert_tenant is None ==> s.tenant
            is None)),
{
}

/// Probes need no sender. Without any way to be recognized, and where nobody has to be,
/// everyone is an administrator of all tenants; nowhere else is one recognized without a token
/// or a certificate.
pub proof fn law_open_nodes_trust_everyone(p: AuthPolicy, path: Seq<char>, c: Credentials)
    ensures
        auth::ruling(p, path, c) is Probe <==> (path == "/healthz"@ || path == "/readyz"@),
        path != "/healthz"@ && path != "/readyz"@ && !p.must_authenticate && !p.has_credentials
            && p.tokens@.len() == 0 && !p.oidc ==> (auth::ruling(p, path, c) matches Ruling::Known(
            s,
        ) && s.role is Admin && s.tenant is None),
        (p.must_authenticate || p.has_credentials || p.tokens@.len() > 0 || p.oidc)
            && c.authorization is None && c.cert_cn is None ==> !(auth::ruling(p, path, c)
            is Known),
{
}

/// The virtual machine that a path names is the first part behind the prefix, whatever
/// follows.
pub proof fn law_paths_name_machines(id: Seq<char>, rest: Seq<char>)
    requires
        text::lacks(id, '/'),
    ensures
        auth::vm_in("/v1/vms/"@ + id) == auth::uuid_read(id),
        auth::vm_in("/v1/vms/"@ + id + seq!['/'] + rest) == auth::uuid_read(id),
        auth::vm_in("/v1/sandboxes/"@ + id) == auth::uuid_read(id),
        auth::vm_in("/v1/sandboxes/"@ + id + seq!['/'] + rest) == auth::uuid_read(id),
{
    reveal_strlit("/v1/vms/");
    reveal_strlit("/v1/sandboxes/");
    let a = "/v1/vms/"@;
    let b = "/v1/sandboxes/"@;
    assert(a.len() == 8 && b.len() == 14);
    assert(a[4] == 'v' && b[4] == 's');
    let tail = id + seq!['/'] + rest;
    assert(a + id + seq!['/'] + rest =~= a + tail);
    assert(b + id + seq!['/'] + rest =~= b + tail);
    lemma_after(a, id);
    lemma_after(a, tail);
    lemma_after(b, id);
    lemma_after(b, tail);
    assert((b + id)[4] == 's' && (b + tail)[4] == 's');
    if text::has_prefix(b + id, a) {
        assert((b + id).take(8)[4] == a[4]);
    }
    if text::has_prefix(b + tail, a) {
        assert((b + tail).take(8)[4] == a[4]);
    }
    lemma_first_part(id, rest);
}

/// What follows a prefix.
proof fn lemma_after(p: Seq<char>, s: Seq<char>)
    ensures
        text::after_prefix(p + s, p) == Some(s),
{
    assert((p + s).take(p.len() as int) =~= p);
    assert((p + s).skip(p.len() as int) =~= s);
}

/// The first part of a path.
proof fn lemma_first_part(id: Seq<char>, rest: Seq<char>)
    requires
        text::lacks(id, '/'),
    ensures
        text::split_on(id, '/').len() > 0,
        text::split_on(id, '/')[0] == id,
        text::split_on(id + seq!['/'] + rest, '/').len() > 1,
        text::split_on(id + seq!['/'] + rest, '/')[0] == id,
    decreases rest.len(),
{
    let whole = id + seq!['/'] + rest;
    lemma_unsplit(id);
    if rest.len() == 0 {
        assert(whole.drop_last() =~= id);
        assert(whole.last() == '/');
    } else {
        lemma_first_part(id, rest.drop_last());
        assert(whole.drop_last() =~= id + seq!['/'] + rest.drop_last());
        assert(whole.last() == rest.last());
    }
}

/// A text without the separator is one part.
proof fn lemma_unsplit(s: Seq<char>)
    requires
        text::lacks(s, '/'),
    ensures
        text::split_on(s, '/') == seq![s],
    decreases s.len(),
{
    if s.len() > 0 {
        assert(s.last() == s[s.len() - 1]);
        lemma_unsplit(s.drop_last());
        assert(s =~= s.drop_last().push(s.last()));
        assert(text::split_on(s, '/') =~= seq![s]);
    } else {
        assert(s =~= Seq::<char>::empty());
    }
}

/// Requests are counted by the name of their sender; probes are not counted.
pub proof fn law_requests_are_counted_by_sender(path: Seq<char>, a: Seq<char>, b: Seq<char>)
    requires
        path != "/healthz"@,
        path != "/readyz"@,
    ensures
        auth::rate_key(path, Some(a)) == Some(a),
        auth::rate_key(path, Some(a)) == auth::rate_key(path, Some(b)) <==> a == b,
        auth::rate_key(path, None) is Some,
        auth::rate_key("/healthz"@, Some(a)) is None,
        auth::rate_key("/readyz"@, Some(a)) is None,
{
}

// ---------------------------------------------------------------------------
// Identity provider
// ---------------------------------------------------------------------------

/// An identity is what the claims say: the special claim before the usual one, and for the
/// name the user's name before the address and that before the subject.
pub proof fn law_identities_are_claimed(claims: Js)
    requires
        oidc::identity_of(claims) is Some,
    ensures
        ({
            let i = oidc::identity_of(claims)->0;
            &&& claims.get("fluxvm_role"@) matches Some(Js::Str(r)) ==> (i.role is Admin
                <==> text::lower(r) == "admin"@)
            &&& !(claims.get("fluxvm_role"@) matches Some(Js::Str(_))) ==> (claims.get("role"@) matches Some(
                Js::Str(r),
            ) ==> (i.role is Admin <==> text::lower(r) == "admin"@))
            &&& !(claims.get("fluxvm_role"@) matches Some(Js::Str(_))) && !(claims.get(
                "role"@,
            ) matches Some(Js::Str(_))) ==> i.role is ReadOnly
            &&& claims.get("preferred_username"@) matches Some(Js::Str(n)) ==> i.actor == n
            &&& !(claims.get("preferred_username"@) matches Some(Js::Str(_))) ==> (claims.get(
                "email"@,
            ) matches Some(Js::Str(n)) ==> i.actor == n)
            &&& !(claims.get("preferred_username"@) matches Some(Js::Str(_))) && !(claims.get(
                "email"@,
            ) matches Some(Js::Str(_))) ==> (claims.get("sub"@) matches Some(Js::Str(n)) ==> i.actor
                == n)
            &&& claims.get("fluxvm_tenant"@) matches Some(Js::Str(t)) ==> (t.len() > 0 ==> i.tenant
                == Some(t)) && (t.len() == 0 ==> i.tenant is None)
            &&& !(claims.get("fluxvm_tenant"@) matches Some(Js::Str(_))) ==> (claims.get(
                "tenant"@,
            ) matches Some(Js::Str(t)) ==> (t.len() > 0 ==> i.tenant == Some(t)))
            &&& !(claims.get("fluxvm_tenant"@) matches Some(Js::Str(_))) && !(claims.get(
                "tenant"@,
            ) matches Some(Js::Str(_))) ==> (claims.get("org"@) matches Some(Js::Str(t)) ==> (
            t.len() > 0 ==> i.tenant == Some(t)))
            &&& claims.get("fluxvm_tenant"@) is None && claims.get("tenant"@) is None && claims.get(
                "org"@,
            ) is None ==> i.tenant is None
        }),
{
}

/// Claims that are texts, or not there, say who the sender is.
pub proof fn law_readable_claims_are_accepted(m: Map<Seq<char>, Js>)
    requires
        forall|k: Seq<char>| #[trigger] m.contains_key(k) ==> m[k] is Str,
    ensures
        oidc::identity_of(Js::Obj(m)) is Some,
{
    assert(forall|k: Seq<char>| #[trigger] oidc::readable(Js::Obj(m), k));
}

/// The algorithm of a key is the one of its name.
pub proof fn law_algorithms_are_known_by_name()
    ensures
        oidc::algorithm_of(Some("RS256"@)) is RS256,
        oidc::algorithm_of(Some("RS384"@)) is RS384,
        oidc::algorithm_of(Some("RS512"@)) is RS512,
        oidc::algorithm_of(Some("ES256"@)) is ES256,
        oidc::algorithm_of(Some("ES384"@)) is ES384,
        oidc::algorithm_of(None) is RS256,
{
    reveal_strlit("RS256");
    reveal_strlit("RS384");
    reveal_strlit("RS512");
    reveal_strlit("ES256");
    reveal_strlit("ES384");
    assert("RS256"@[0] == 'R' && "RS256"@[2] == '2');
    assert("RS384"@[0] == 'R' && "RS384"@[2] == '3');
    assert("RS512"@[0] == 'R' && "RS512"@[2] == '5');
    assert("ES256"@[0] == 'E' && "ES256"@[2] == '2');
    assert("ES384"@[0] == 'E' && "ES384"@[2] == '3');
}

/// A key that is published under a name, and that can be used, is kept under that name,
/// unless a later one has it too.
pub proof fn law_published_keys_are_kept(entries: Seq<Jwk>, i: int)
    requires
        0 <= i < entries.len(),
        entries[i].key_id is Some,
        oidc::jwk_usable(entries[i].jwk),
        forall|j: int|
            i < j < entries.len() ==> (#[trigger] entries[j]).key_id != entries[i].key_id,
    ensures
        oidc::keys_of(entries).contains_key(entries[i].key_id->0),
        oidc::keys_of(entries)[entries[i].key_id->0].jwk == entries[i].jwk,
        oidc::keys_of(entries)[entries[i].key_id->0].algorithm == oidc::algorithm_of(
            entries[i].algorithm,
        ),
    decreases entries.len(),
{
    let before = entries.drop_last();
    if i < before.len() {
        assert(before[i] == entries[i]);
        assert forall|j: int| i < j < before.len() implies (#[trigger] before[j]).key_id
            != before[i].key_id by {
            assert(before[j] == entries[j]);
        }
        law_published_keys_are_kept(before, i);
        assert(entries[entries.len() - 1].key_id != entries[i].key_id);
    }
}

/// Only keys that are published and that can be used are kept.
pub proof fn law_only_published_keys_are_kept(entries: Seq<Jwk>, id: Seq<char>)
    requires
        oidc::keys_of(entries).contains_key(id),
    ensures
        exists|i: int|
            0 <= i < entries.len() && (#[trigger] entries[i]).key_id == Some(id) && oidc::jwk_usable(
                entries[i].jwk,
            ) && oidc::keys_of(entries)[id].jwk == entries[i].jwk,
    decreases entries.len(),
{
    if entries.len() > 0 {
        let before = entries.drop_last();
        let last = entries[entries.len() - 1];
        if last.key_id == Some(id) && oidc::jwk_usable(last.jwk) {
            assert(oidc::keys_of(entries)[id].jwk == last.jwk);
        } else {
            law_only_published_keys_are_kept(before, id);
            let i = choose|i: int|
                0 <= i < before.len() && (#[trigger] before[i]).key_id == Some(id)
                    && oidc::jwk_usable(before[i].jwk) && oidc::keys_of(before)[id].jwk
                    == before[i].jwk;
            assert(entries[i] == before[i]);
        }
    }
}

/// Keys are used for an hour after they were fetched, and not before they were.
pub proof fn law_keys_are_used_for_an_hour(t: u64, now: u64)
    ensures
        oidc::fresh(Some(t), now) <==> now < t + 3600,
        !oidc::fresh(None, now),
{
}

// ---------------------------------------------------------------------------
// Records
// ---------------------------------------------------------------------------

/// What is kept are the places of all records that count, each once, in their order.
pub proof fn law_kept_places<T>(items: Seq<T>, keep: spec_fn(T) -> bool)
    ensures
        forall|i: int|
            0 <= i < items.len() ==> (records::kept(items, keep).contains(i) <==> keep(
                #[trigger] items[i],
            )),
        forall|k: int|
            0 <= k < records::kept(items, keep).len() ==> 0 <= #[trigger] records::kept(
                items,
                keep,
            )[k] < items.len(),
        forall|k: int, l: int|
            0 <= k < l < records::kept(items, keep).len() ==> #[trigger] records::kept(
                items,
                keep,
            )[k] < #[trigger] records::kept(items, keep)[l],
    decreases items.len(),
{
    if items.len() > 0 {
        let before = items.drop_last();
        law_kept_places(before, keep);
        let a = records::kept(before, keep);
        let b = records::kept(items, keep);
        let n = items.len() - 1;
        assert forall|i: int| 0 <= i < items.len() implies (b.contains(i) <==> keep(
            #[trigger] items[i],
        )) by {
            if i < n {
                assert(before[i] == items[i]);
                if a.contains(i) {
                    let k = choose|k: int| 0 <= k < a.len() && a[k] == i;
                    assert(b[k] == i);
                }
                if b.contains(i) {
                    let k = choose|k: int| 0 <= k < b.len() && b[k] == i;
                    assert(a[k] == i);
                }
            } else {
                if keep(items[i]) {
                    assert(b[a.len() as int] == n);
                } else if b.contains(i) {
                    let k = choose|k: int| 0 <= k < b.len() && b[k] == i;
                    assert(a[k] == i);
                }
            }
        }
    }
}

/// Who has no tenant lists the virtual machines of all tenants, or of the one that they ask
/// for; to ask for another tenant than one's own is refused.
pub proof fn law_lists_are_what_is_asked_for(
    items: Seq<VmRecord>,
    own: Option<Seq<char>>,
    asked: Option<Seq<char>>,
    name: Option<Seq<char>>,
    i: int,
)
    requires
        0 <= i < items.len(),
    ensures
        records::list_scope(own, asked) is Err <==> own is Some && asked is Some && own != asked,
        records::list_scope(own, asked) matches Ok(scope) ==> (records::kept(
            items,
            |vm: VmRecord| records::is_listed(vm, name, scope),
        ).contains(i) <==> (name matches Some(n) ==> items[i].name@ == n) && (own matches Some(t)
            ==> (items[i].tenant matches Some(x) && x@ == t)) && (asked matches Some(t) ==> (
        items[i].tenant matches Some(x) && x@ == t))),
{
    if let Ok(scope) = records::list_scope(own, asked) {
        law_kept_places(items, |vm: VmRecord| records::is_listed(vm, name, scope));
    }
}

/// The sandboxes that are listed are those of the sender's tenant, or all; they are the
/// virtual machines that are run without another program.
pub proof fn law_sandboxes_are_listed(items: Seq<VmRecord>, own: Option<Seq<char>>, i: int)
    requires
        0 <= i < items.len(),
    ensures
        records::kept(items, |vm: VmRecord| records::is_sandbox(vm, own)).contains(i) <==> items[i].backend
            is FluxVm && (own matches Some(t) ==> (items[i].tenant matches Some(x) && x@ == t)),
{
    law_kept_places(items, |vm: VmRecord| records::is_sandbox(vm, own));
}

/// The pools that are listed are those of the sender's tenant, or all.
pub proof fn law_pools_are_listed(items: Seq<PoolRecord>, own: Option<Seq<char>>, i: int)
    requires
        0 <= i < items.len(),
    ensures
        records::kept(items, |p: PoolRecord| records::pool_shown(p, own)).contains(i) <==> (
        own matches Some(t) ==> (items[i].tenant matches Some(x) && x@ == t)),
{
    law_kept_places(items, |p: PoolRecord| records::pool_shown(p, own));
}

/// What is created belongs to the sender's tenant, or, without one, to whom they say; to
/// create for another tenant than one's own is refused.
pub proof fn law_creations_have_their_tenant(
    own: Option<Seq<char>>,
    asked: Option<Seq<char>>,
    what: Seq<char>,
)
    ensures
        records::created_for(own, asked, what) is Err <==> own is Some && asked is Some && own
            != asked,
        records::created_for(own, asked, what) matches Ok(t) ==> (own is Some ==> t == own) && (
        own is None ==> t == asked),
{
}

/// The memory of all virtual machines is that of each of them together.
pub proof fn law_memory_adds_up(items: Seq<VmRecord>, vm: VmRecord)
    ensures
        records::memory_of(Seq::empty()) == 0,
        records::memory_of(items) + vm.memory_mib <= u64::MAX ==> records::memory_of(items.push(vm))
            == records::memory_of(items) + vm.memory_mib,
        records::memory_of(items) + vm.memory_mib > u64::MAX ==> records::memory_of(items.push(vm))
            == u64::MAX,
{
    assert(items.push(vm).drop_last() =~= items);
}

/// A sender may create a virtual machine just where, after that, they have no more of them,
/// and no more memory, than they may have. Senders who are not recognized are not limited.
pub proof fn law_quotas_are_kept(
    actor: Seq<char>,
    q: Quotas,
    items: Seq<VmRecord>,
    memory_mib: u64,
)
    requires
        actor != "anonymous-admin"@,
        actor != "none"@,
        records::memory_of(items) + memory_mib <= u64::MAX,
    ensures
        records::quota_fault(Some(actor), q, items, memory_mib) is None <==> (q.max_vms matches Some(
            max,
        ) ==> items.len() + 1 <= max) && (q.max_memory_mib matches Some(max) ==> records::memory_of(
            items,
        ) + memory_mib <= max),
        records::quota_fault(None, q, items, memory_mib) is None,
{
}

// ---------------------------------------------------------------------------
// Counters
// ---------------------------------------------------------------------------

/// Virtual machines are counted by what they are.
pub proof fn law_machines_are_counted(vms: Seq<VmRecord>, vm: VmRecord, s: VmStatus, b: BackendKind)
    ensures
        metrics::with_status(Seq::empty(), s) == 0,
        metrics::with_backend(Seq::empty(), b) == 0,
        metrics::with_agent(Seq::empty()) == 0,
        vm.status == s ==> metrics::with_status(vms.push(vm), s) == metrics::with_status(vms, s) + 1,
        vm.status != s ==> metrics::with_status(vms.push(vm), s) == metrics::with_status(vms, s),
        vm.backend == b ==> metrics::with_backend(vms.push(vm), b) == metrics::with_backend(vms, b)
            + 1,
        vm.backend != b ==> metrics::with_backend(vms.push(vm), b) == metrics::with_backend(vms, b),
        vm.agent_enabled ==> metrics::with_agent(vms.push(vm)) == metrics::with_agent(vms) + 1,
        !vm.agent_enabled ==> metrics::with_agent(vms.push(vm)) == metrics::with_agent(vms),
{
    assert(vms.push(vm).drop_last() =~= vms);
}

/// The part stands somewhere in the text.
#[verifier::opaque]
pub open spec fn shows(t: Seq<char>, part: Seq<char>) -> bool {
    text::holds(t, part)
}

/// A line holds all behind its head.
proof fn lemma_line(head: Seq<char>, a: Seq<char>, b: Seq<char>, c: Seq<char>, d: Seq<char>)
    ensures
        shows(head + a + b + c + d, a + b + c + d),
{
    lemma_ends(head, a + b + c + d);
    assert(head + a + b + c + d =~= head + (a + b + c + d));
}

/// What a part of a text holds, the text holds.
proof fn lemma_within(before: Seq<char>, part: Seq<char>, after: Seq<char>, x: Seq<char>)
    requires
        shows(part, x),
    ensures
        shows(before + part + after, x),
{
    reveal(shows);
    let i = choose|i: int|
        0 <= i <= part.len() - x.len() && #[trigger] part.subrange(i, i + x.len()) == x;
    let s = before + part + after;
    let k = before.len() + i;
    assert(s.subrange(k, k + x.len()) =~= part.subrange(i, i + x.len()));
}

/// A text holds what it ends with, and what it begins with.
pub proof fn lemma_ends(a: Seq<char>, b: Seq<char>)
    ensures
        shows(a + b, a),
        shows(a + b, b),
{
    reveal(shows);
    let s = a + b;
    let n = a.len() as int;
    assert(s.subrange(0, 0 + n) =~= a);
    assert(s.subrange(n, n + b.len()) =~= b);
}

/// What the first or the second part of a text holds, the text holds.
pub proof fn lemma_either(a: Seq<char>, b: Seq<char>, x: Seq<char>)
    ensures
        shows(a, x) || shows(b, x) ==> shows(a + b, x),
{
    let none = Seq::<char>::empty();
    if shows(a, x) {
        lemma_within(none, a, b, x);
        assert(none + a + b =~= a + b);
    } else if shows(b, x) {
        lemma_within(a, b, none, x);
        assert(a + b + none =~= a + b);
    }
}

/// Each counter of the node is in the text, under its own name and with its own value.
pub proof fn law_counters_are_written(vms: Seq<VmRecord>, c: Counters)
    ensures
        shows(
            metrics::metrics_text(vms, c),
            metrics::value_line("fluxvm_auth_deny_total"@, c.auth_deny_total as nat),
        ),
        shows(
            metrics::metrics_text(vms, c),
            metrics::value_line("fluxvm_egress_deny_total"@, c.egress_deny_total as nat),
        ),
        shows(
            metrics::metrics_text(vms, c),
            metrics::value_line("fluxvm_vm_create_total"@, c.vm_create_total as nat),
        ),
        shows(
            metrics::metrics_text(vms, c),
            metrics::value_line(
                "fluxvm_vm_create_duration_ms_total"@,
                c.vm_create_duration_ms_total as nat,
            ),
        ),
        shows(
            metrics::metrics_text(vms, c),
            metrics::value_line("fluxvm_vm_start_total"@, c.vm_start_total as nat),
        ),
        shows(
            metrics::metrics_text(vms, c),
            metrics::value_line(
                "fluxvm_vm_start_duration_ms_total"@,
                c.vm_start_duration_ms_total as nat,
            ),
        ),
        shows(
            metrics::metrics_text(vms, c),
            metrics::value_line("fluxvm_vms_agent_enabled"@, metrics::with_agent(vms)),
        ),
{
    let part = metrics::counter_part(c);
    let h1 = "# HELP fluxvm_auth_deny_total REST requests rejected for missing or invalid bearer token.\n"@
        + "# TYPE fluxvm_auth_deny_total counter\n"@;
    let v1 = metrics::value_line("fluxvm_auth_deny_total"@, c.auth_deny_total as nat);
    let p1 = h1 + v1;
    let h2 = "# HELP fluxvm_egress_deny_total Outbound HTTP(S) requests denied by the L7 egress proxy.\n"@;
    let t2 = "# TYPE fluxvm_egress_deny_total counter\n"@;
    let v2 = metrics::value_line("fluxvm_egress_deny_total"@, c.egress_deny_total as nat);
    let p2 = p1 + h2 + t2 + v2;
    let h3 = "# HELP fluxvm_vm_create_total VM create operations completed successfully.\n"@;
    let t3 = "# TYPE fluxvm_vm_create_total counter\n"@;
    let v3 = metrics::value_line("fluxvm_vm_create_total"@, c.vm_create_total as nat);
    let p3 = p2 + h3 + t3 + v3;
    let h4 = "# HELP fluxvm_vm_create_duration_ms_total Cumulative wall time of successful VM creates in milliseconds.\n"@;
    let t4 = "# TYPE fluxvm_vm_create_duration_ms_total counter\n"@;
    let v4 = metrics::value_line(
        "fluxvm_vm_create_duration_ms_total"@,
        c.vm_create_duration_ms_total as nat,
    );
    let p4 = p3 + h4 + t4 + v4;
    let h5 = "# HELP fluxvm_vm_start_total VM start (relaunch) operations completed successfully.\n"@;
    let t5 = "# TYPE fluxvm_vm_start_total counter\n"@;
    let v5 = metrics::value_line("fluxvm_vm_start_total"@, c.vm_start_total as nat);
    let p5 = p4 + h5 + t5 + v5;
    let h6 = "# HELP fluxvm_vm_start_duration_ms_total Cumulative wall time of successful VM starts in milliseconds.\n"@;
    let t6 = "# TYPE fluxvm_vm_start_duration_ms_total counter\n"@;
    let v6 = metrics::value_line(
        "fluxvm_vm_start_duration_ms_total"@,
        c.vm_start_duration_ms_total as nat,
    );
    assert(part == p5 + h6 + t6 + v6);
    lemma_ends(h1, v1);
    lemma_carried(p1, h2, t2, v2, v1);
    lemma_carried(p2, h3, t3, v3, v1);
    lemma_carried(p2, h3, t3, v3, v2);
    lemma_carried(p3, h4, t4, v4, v1);
    lemma_carried(p3, h4, t4, v4, v2);
    lemma_carried(p3, h4, t4, v4, v3);
    lemma_carried(p4, h5, t5, v5, v1);
    lemma_carried(p4, h5, t5, v5, v2);
    lemma_carried(p4, h5, t5, v5, v3);
    lemma_carried(p4, h5, t5, v5, v4);
    lemma_carried(p5, h6, t6, v6, v1);
    lemma_carried(p5, h6, t6, v6, v2);
    lemma_carried(p5, h6, t6, v6, v3);
    lemma_carried(p5, h6, t6, v6, v4);
    lemma_carried(p5, h6, t6, v6, v5);
    let front = metrics::status_part(vms) + metrics::backend_part(vms) + metrics::agent_part(vms);
    lemma_either(front, part, v1);
    lemma_either(front, part, v2);
    lemma_either(front, part, v3);
    lemma_either(front, part, v4);
    lemma_either(front, part, v5);
    lemma_either(front, part, v6);
    let v0 = metrics::value_line("fluxvm_vms_agent_enabled"@, metrics::with_agent(vms));
    lemma_ends(
        "# HELP fluxvm_vms_agent_enabled Number of VMs with the vsock guest agent enabled.\n"@
            + "# TYPE fluxvm_vms_agent_enabled gauge\n"@,
        v0,
    );
    lemma_either(
        metrics::status_part(vms) + metrics::backend_part(vms),
        metrics::agent_part(vms),
        v0,
    );
    lemma_either(front, part, v0);
}

/// What stands before further lines stays, and the last line is there.
pub proof fn lemma_carried(p: Seq<char>, h: Seq<char>, t: Seq<char>, v: Seq<char>, x: Seq<char>)
    ensures
        shows(p, x) ==> shows(p + h + t + v, x),
        shows(p + h + t + v, v),
{
    lemma_either(p, h, x);
    lemma_either(p + h, t, x);
    lemma_either(p + h + t, v, x);
    lemma_ends(p + h + t, v);
}

/// A line names its value: the name, a blank, and the number in decimal.
pub proof fn law_lines_name_their_value(name: Seq<char>, n: nat)
    ensures
        metrics::value_line(name, n) == (name.push(' ') + text::decimal_text(n)).push('\n'),
{
    reveal_strlit(" ");
    reveal_strlit("\n");
    assert(" "@ =~= seq![' ']);
    assert("\n"@ =~= seq!['\n']);
    assert(metrics::value_line(name, n) =~= (name.push(' ') + text::decimal_text(n)).push('\n'));
}

/// What one of five parts behind a head holds, the text holds.
proof fn lemma_five(
    head: Seq<char>,
    a: Seq<char>,
    b: Seq<char>,
    c: Seq<char>,
    d: Seq<char>,
    e: Seq<char>,
    x: Seq<char>,
)
    ensures
        shows(head, x) || shows(a, x) || shows(b, x) || shows(c, x)
            || shows(d, x) || shows(e, x) ==> shows(head + a + b + c + d + e, x),
{
    lemma_either(head, a, x);
    lemma_either(head + a, b, x);
    lemma_either(head + a + b, c, x);
    lemma_either(head + a + b + c, d, x);
    lemma_either(head + a + b + c + d, e, x);
}

/// What a part of all counters holds, the text holds.
proof fn lemma_parts_of_all(vms: Seq<VmRecord>, c: Counters, x: Seq<char>)
    ensures
        shows(metrics::status_part(vms), x) || shows(metrics::backend_part(vms), x)
            ==> shows(metrics::metrics_text(vms, c), x),
{
    lemma_all_parts(
        metrics::status_part(vms),
        metrics::backend_part(vms),
        metrics::agent_part(vms),
        metrics::counter_part(c),
        x,
    );
}

/// What one of the first two of four parts holds, the text holds.
proof fn lemma_all_parts(a: Seq<char>, b: Seq<char>, c: Seq<char>, d: Seq<char>, x: Seq<char>)
    ensures
        shows(a, x) || shows(b, x) ==> shows(a + b + c + d, x),
{
    lemma_either(a, b, x);
    lemma_either(a + b, c, x);
    lemma_either(a + b + c, d, x);
}

/// The number of the virtual machines of each state is in the text, behind its name.
pub proof fn law_states_are_written(vms: Seq<VmRecord>, c: Counters, s: VmStatus)
    ensures
        shows(
            metrics::metrics_text(vms, c),
            s.text() + "\"} "@ + text::decimal_text(metrics::with_status(vms, s)) + "\n"@,
        ),
{
    let x = s.text() + "\"} "@ + text::decimal_text(metrics::with_status(vms, s)) + "\n"@;
    let own = metrics::status_line(vms, s);
    lemma_line(
        "fluxvm_vms_total{status=\""@,
        s.text(),
        "\"} "@,
        text::decimal_text(metrics::with_status(vms, s)),
        "\n"@,
    );
    assert(shows(own, x));
    let head = "# HELP fluxvm_vms_total Number of VMs known to this fluxvm instance, by status.\n"@
        + "# TYPE fluxvm_vms_total gauge\n"@;
    lemma_five(
        head,
        metrics::status_line(vms, VmStatus::Creating),
        metrics::status_line(vms, VmStatus::Running),
        metrics::status_line(vms, VmStatus::Paused),
        metrics::status_line(vms, VmStatus::Stopped),
        metrics::status_line(vms, VmStatus::Failed),
        x,
    );
    lemma_parts_of_all(vms, c, x);
}

/// The number of the virtual machines of each program is in the text, behind its name.
pub proof fn law_programs_are_written(vms: Seq<VmRecord>, c: Counters, b: BackendKind)
    requires
        !(b is Auto),
    ensures
        shows(
            metrics::metrics_text(vms, c),
            b.text() + "\"} "@ + text::decimal_text(metrics::with_backend(vms, b)) + "\n"@,
        ),
{
    let x = b.text() + "\"} "@ + text::decimal_text(metrics::with_backend(vms, b)) + "\n"@;
    let own = metrics::backend_line(vms, b);
    lemma_line(
        "fluxvm_vms_by_backend{backend=\""@,
        b.text(),
        "\"} "@,
        text::decimal_text(metrics::with_backend(vms, b)),
        "\n"@,
    );
    assert(shows(own, x));
    let head = "# HELP fluxvm_vms_by_backend Number of VMs known to this fluxvm instance, by backend.\n"@
        + "# TYPE fluxvm_vms_by_backend gauge\n"@;
    let none = Seq::<char>::empty();
    lemma_five(
        head,
        metrics::backend_line(vms, BackendKind::Qemu),
        metrics::backend_line(vms, BackendKind::CloudHypervisor),
        metrics::backend_line(vms, BackendKind::Firecracker),
        metrics::backend_line(vms, BackendKind::FluxVm),
        none,
        x,
    );
    assert(metrics::backend_part(vms) + none =~= metrics::backend_part(vms));
    lemma_parts_of_all(vms, c, x);
}

/// Each state has a name of its own, and so has each program.
pub proof fn law_names_are_apart(s: VmStatus, t: VmStatus, a: BackendKind, b: BackendKind)
    ensures
        s.text() == t.text() <==> s == t,
        a.text() == b.text() <==> a == b,
{
    reveal_strlit("creating");
    reveal_strlit("running");
    reveal_strlit("paused");
    reveal_strlit("stopped");
    reveal_strlit("failed");
    reveal_strlit("qemu");
    reveal_strlit("cloud-hypervisor");
    reveal_strlit("firecracker");
    reveal_strlit("fluxvm");
    reveal_strlit("auto");
    assert("creating"@[0] == 'c' && "running"@[0] == 'r' && "paused"@[0] == 'p' && "stopped"@[0]
        == 's' && "failed"@[0] == 'f');
    assert("qemu"@[0] == 'q' && "cloud-hypervisor"@[0] == 'c' && "firecracker"@[1] == 'i'
        && "firecracker"@[0] == 'f' && "fluxvm"@[1] == 'l' && "fluxvm"@[0] == 'f' && "auto"@[0]
        == 'a');
}

// ---------------------------------------------------------------------------
// Requests to a sandbox
// ---------------------------------------------------------------------------

/// A request goes to the sandbox's own address and port, and keeps its path and its query.
pub proof fn law_requests_keep_their_path(
    ip: Seq<char>,
    port: u16,
    path: Seq<char>,
    query: Seq<char>,
)
    ensures
        text::has_prefix(
            requests::proxy_address(ip, port, path, None),
            "http://"@ + ip + ":"@ + text::decimal_text(port as nat) + "/"@,
        ),
        text::has_suffix(requests::proxy_address(ip, port, path, None), "/"@ + path),
        text::has_suffix(
            requests::proxy_address(ip, port, path, Some(query)),
            "/"@ + path + "?"@ + query,
        ),
        text::has_prefix(
            requests::proxy_address(ip, port, path, Some(query)),
            "http://"@ + ip + ":"@ + text::decimal_text(port as nat) + "/"@,
        ),
{
    reveal_strlit("");
    let head = "http://"@ + ip + ":"@ + text::decimal_text(port as nat);
    let start = head + "/"@;
    let a = requests::proxy_address(ip, port, path, None);
    let b = requests::proxy_address(ip, port, path, Some(query));
    assert(a =~= start + path);
    assert(a.take(start.len() as int) =~= start);
    assert(a =~= head + ("/"@ + path));
    assert(a.skip(head.len() as int) =~= "/"@ + path);
    assert(b =~= head + ("/"@ + path + "?"@ + query));
    assert(b.skip(head.len() as int) =~= "/"@ + path + "?"@ + query);
    assert(b.take(start.len() as int) =~= start);
}

// ---------------------------------------------------------------------------
// Answers
// ---------------------------------------------------------------------------

/// An error is answered with its status and its message.
pub proof fn law_errors_are_answered(e: ApiError, status: u16, message: Seq<char>)
    requires
        auth::answers(e, status, message),
    ensures
        e.status == status,
        e.message@ == message,
{
}

/// The places that are listed are the numbers that are kept.
pub proof fn law_places_are_numbers(v: Seq<usize>, i: int)
    ensures
        records::places(v).len() == v.len(),
        0 <= i < v.len() ==> records::places(v)[i] == v[i],
{
}

/// A request to a sandbox that fails is the sender's fault only where its body cannot be
/// read.
pub proof fn law_stages_have_their_status(s: ProxyStage)
    ensures
        s is Body ==> s.status() == 400,
        !(s is Body) ==> s.status() == 502,
{
}

/// Snapshots hold memory and disk together, but for the one program that makes none, and
/// cannot be carried over.
pub proof fn law_snapshots_hold_all_or_nothing(b: BackendKind)
    ensures
        requests::snapshot_of(b).backend == b,
        requests::snapshot_of(b).memory == requests::snapshot_of(b).disk,
        requests::snapshot_of(b).memory <==> b != BackendKind::Firecracker,
        !requests::snapshot_of(b).portable,
{
}

/// What a row of the table says is where its request is served.
pub proof fn law_rows_tell_their_request(r: Route, e: Endpoint)
    requires
        routes::is_route(r, e),
    ensures
        r.endpoint == e,
        r.verb == e.served_by(),
        r.pattern@ == e.served_at(),
{
}

/// What is made is answered as made, and what is gone, or was only set, with nothing.
pub proof fn law_successes_are_told(e: Endpoint)
    ensures
        e.success() == 200 || e.success() == 201 || e.success() == 204,
        e is CreateVm || e is CreateSandbox || e is CreatePool || e is BuildTemplate
            || e is AddCatalogEntry || e is CloneCatalogEntry <==> e.success() == 201,
        e is DeleteVm || e is DeletePool || e is RemoveCatalogEntry ==> e.success() == 204,
        e.served_by() is Get ==> e.success() == 200,
{
}

/// A token that is accepted is signed with the key, names no other issuer and no other
/// audience, says when it ends, and says who the sender is.
pub proof fn law_accepted_tokens_are_meant_for_us(
    token: Seq<char>,
    key: oidc::SigningKey,
    issuer: Seq<char>,
    audience: Seq<char>,
    i: oidc::Identity,
)
    requires
        oidc::vouches(token, key, issuer, audience, i),
    ensures
        oidc::jwt_opened(token, key.jwk, key.algorithm) matches Some(claims) && {
            &&& oidc::identity_of(claims) == Some(i)
            &&& claims.get("iss"@) matches Some(Js::Str(s)) ==> s == issuer
            &&& claims.get("aud"@) matches Some(Js::Str(s)) ==> s == audience
            &&& claims.get("aud"@) matches Some(Js::Arr(v)) ==> (forall|k: int|
                0 <= k < v.len() ==> (#[trigger] v[k]) is Str) ==> v.contains(Js::Str(audience))
            &&& claims.get("exp"@) is Some
        },
{
    let claims = oidc::jwt_opened(token, key.jwk, key.algorithm)->0;
    if let Some(Js::Arr(v)) = claims.get("aud"@) {
        if forall|k: int| 0 <= k < v.len() ==> (#[trigger] v[k]) is Str {
            assert(crate::container::wire::all_strings(v));
        }
    }
}

/// A token is accepted just where it was opened, the typed reader has nothing against its
/// claims, and they say who the sender is.
pub proof fn law_judgements(opened: Result<Js, Seq<char>>, fault: Option<Seq<char>>)
    ensures
        oidc::judgement(opened, fault) is Ok <==> opened is Ok && fault is None && oidc::identity_of(
            opened->Ok_0,
        ) is Some,
        oidc::judgement(opened, fault) matches Ok(i) ==> oidc::identity_of(opened->Ok_0) == Some(i),
{
}

/// Keys are published where the provider's description says.
pub proof fn law_keys_are_published_where_described(description: Seq<char>)
    ensures
        json::json_read(description) matches Ok(j) ==> (j.get("jwks_uri"@) matches Some(Js::Str(u))
            ==> oidc::published_at(description) == Some(u)) && (!(j.get("jwks_uri"@) matches Some(
            Js::Str(_),
        )) ==> oidc::published_at(description) is None),
        json::json_read(description) is Err ==> oidc::published_at(description) is None,
{
}

} // verus!
