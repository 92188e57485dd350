//! What a sender gets to see, and may create.

use vstd::prelude::*;

use crate::api::auth;
use crate::api::auth::{copy_option, visible, ApiError};
use crate::text;
use crate::text::{cat, same, u64_text};
use crate::vm::{BackendKind, VmStatus};

verus! {

/// What is known of a virtual machine.
#[derive(Debug)]
pub struct VmRecord {
    pub name: String,
    pub tenant: Option<String>,
    pub backend: BackendKind,
    pub status: VmStatus,
    pub agent_enabled: bool,
    pub memory_mib: u64,
}

/// What is known of a pool of virtual machines.
#[derive(Debug)]
pub struct PoolRecord {
    pub name: String,
    /// Whose virtual machines these are.
    pub tenant: Option<String>,
}

// ---------------------------------------------------------------------------
// Lists
// ---------------------------------------------------------------------------

/// The places of the records that are kept.
pub open spec fn kept<T>(items: Seq<T>, keep: spec_fn(T) -> bool) -> Seq<int>
    decreases items.len(),
{
    if items.len() == 0 {
        Seq::empty()
    } else if keep(items.last()) {
        kept(items.drop_last(), keep).push(items.len() - 1)
    } else {
        kept(items.drop_last(), keep)
    }
}

/// The places as numbers.
pub open spec fn places(v: Seq<usize>) -> Seq<int> {
    v.map_values(|i: usize| i as int)
}

/// Finds the places of the records that are kept, which `shown` tells.
fn places_kept<T, F: Fn(&T) -> bool>(
    items: &Vec<T>,
    shown: F,
    Ghost(keep): Ghost<spec_fn(T) -> bool>,
) -> (r: Vec<usize>)
    requires
        forall|x: &T| #[trigger] call_requires(shown, (x,)),
        forall|x: &T, b: bool| #[trigger] call_ensures(shown, (x,), b) ==> b == keep(*x),
    ensures
        places(r@) == kept(items@, keep),
{
    let mut out: Vec<usize> = Vec::new();
    let mut i: usize = 0;
    assert(items@.take(0) =~= Seq::<T>::empty());
    assert(places(out@) =~= Seq::<int>::empty());
    while i < items.len()
        invariant
            i <= items.len(),
            forall|x: &T| #[trigger] call_requires(shown, (x,)),
            forall|x: &T, b: bool| #[trigger] call_ensures(shown, (x,), b) ==> b == keep(*x),
            places(out@) == kept(items@.take(i as int), keep),
        decreases items.len() - i,
    {
        assert(items@.take(i + 1).drop_last() =~= items@.take(i as int));
        if shown(&items[i]) {
            let ghost before = out@;
            out.push(i);
            assert(places(out@) =~= places(before).push(i as int));
        }
        i += 1;
    }
    assert(items@.take(items.len() as int) =~= items@);
    out
}

/// The owner is this tenant.
pub open spec fn owned_by(owner: Option<String>, tenant: Seq<char>) -> bool {
    text::optional_string(owner) == Some(tenant)
}

/// A virtual machine is listed.
pub open spec fn is_listed(
    vm: VmRecord,
    name: Option<Seq<char>>,
    tenant: Option<Seq<char>>,
) -> bool {
    (name matches Some(n) ==> vm.name@ == n) && (tenant matches Some(t) ==> owned_by(
        vm.tenant,
        t,
    ))
}

/// Whose virtual machines are listed: those of the sender's tenant, and else those of the
/// tenant that is asked for. To ask for another tenant than one's own is refused.
pub open spec fn list_scope(own: Option<Seq<char>>, asked: Option<Seq<char>>) -> Result<
    Option<Seq<char>>,
    Seq<char>,
> {
    match (own, asked) {
        (Some(t), Some(q)) => if q != t {
            Err("token tenant '"@ + t + "' cannot list tenant '"@ + q + "'"@)
        } else {
            Ok(Some(t))
        },
        (Some(t), None) => Ok(Some(t)),
        (None, q) => Ok(q),
    }
}

/// Tells whether an optional owner is this tenant.
fn is_owner(owner: &Option<String>, tenant: &str) -> (r: bool)
    ensures
        r == owned_by(*owner, tenant@),
{
    match owner {
        Some(o) => same(o.as_str(), tenant),
        None => false,
    }
}

/// Lists virtual machines: the places of those that are shown, in their order.
pub fn list_vms(
    items: &Vec<VmRecord>,
    own: &Option<String>,
    name: &Option<String>,
    tenant: &Option<String>,
) -> (r: Result<Vec<usize>, ApiError>)
    ensures
        match list_scope(text::optional_string(*own), text::optional_string(*tenant)) {
            Err(m) => r matches Err(e) && auth::answers(e, 403, m),
            Ok(scope) => r matches Ok(v) && places(v@) == kept(
                items@,
                |vm: VmRecord| is_listed(vm, text::optional_string(*name), scope),
            ),
        },
{
    let scope: Option<&str> = match own {
        Some(t) => {
            if let Some(q) = tenant {
                if !same(q.as_str(), t.as_str()) {
                    let head = cat("token tenant '", t.as_str());
                    let body = cat(
                        cat(head.as_str(), "' cannot list tenant '").as_str(),
                        q.as_str(),
                    );
                    return Err(ApiError::forbidden(cat(body.as_str(), "'")));
                }
            }
            Some(t.as_str())
        },
        None => match tenant {
            Some(q) => Some(q.as_str()),
            None => None,
        },
    };
    let ghost n = text::optional_string(*name);
    let ghost s = text::optional(scope);
    let ghost keep = |vm: VmRecord| is_listed(vm, n, s);
    let shown = |vm: &VmRecord| -> (r: bool)
        ensures
            r == is_listed(*vm, text::optional_string(*name), text::optional(scope)),
        {
            let named = match name {
                Some(x) => same(vm.name.as_str(), x.as_str()),
                None => true,
            };
            let owned = match scope {
                Some(t) => is_owner(&vm.tenant, t),
                None => true,
            };
            named && owned
        };
    Ok(places_kept(items, shown, Ghost(keep)))
}

/// A virtual machine is listed as a sandbox.
pub open spec fn is_sandbox(vm: VmRecord, own: Option<Seq<char>>) -> bool {
    vm.backend is FluxVm && auth::sees(own, text::optional_string(vm.tenant))
}

/// Lists sandboxes.
pub fn list_sandboxes(items: &Vec<VmRecord>, own: &Option<String>) -> (r: Vec<usize>)
    ensures
        places(r@) == kept(items@, |vm: VmRecord| is_sandbox(vm, text::optional_string(*own))),
{
    let ghost o = text::optional_string(*own);
    let ghost keep = |vm: VmRecord| is_sandbox(vm, o);
    let shown = |vm: &VmRecord| -> (r: bool)
        ensures
            r == is_sandbox(*vm, text::optional_string(*own)),
        {
            let sandbox = match vm.backend {
                BackendKind::FluxVm => true,
                _ => false,
            };
            sandbox && visible(own, &vm.tenant)
        };
    places_kept(items, shown, Ghost(keep))
}

/// A pool is shown.
pub open spec fn pool_shown(p: PoolRecord, own: Option<Seq<char>>) -> bool {
    auth::sees(own, text::optional_string(p.tenant))
}

/// Lists pools.
pub fn list_pools(items: &Vec<PoolRecord>, own: &Option<String>) -> (r: Vec<usize>)
    ensures
        places(r@) == kept(items@, |p: PoolRecord| pool_shown(p, text::optional_string(*own))),
{
    let ghost o = text::optional_string(*own);
    let ghost keep = |p: PoolRecord| pool_shown(p, o);
    let shown = |p: &PoolRecord| -> (r: bool)
        ensures
            r == pool_shown(*p, text::optional_string(*own)),
        {
            visible(own, &p.tenant)
        };
    places_kept(items, shown, Ghost(keep))
}

/// Tells whether a pool is shown to a sender.
pub fn pool_visible_to(p: &PoolRecord, own: &Option<String>) -> (r: bool)
    ensures
        r == pool_shown(*p, text::optional_string(*own)),
{
    visible(own, &p.tenant)
}

/// Decides whether a sender gets at a pool. A pool of another tenant is answered like one
/// that is not there.
pub fn reach_pool(p: &PoolRecord, own: &Option<String>) -> (r: Result<(), ApiError>)
    ensures
        match r {
            Ok(_) => pool_shown(*p, text::optional_string(*own)),
            Err(e) => !pool_shown(*p, text::optional_string(*own)) && auth::answers(
                e,
                404,
                "pool not found"@,
            ),
        },
{
    if pool_visible_to(p, own) {
        Ok(())
    } else {
        Err(ApiError::not_found("pool not found"))
    }
}

/// What is kept are places of the list, in their order, of records that count.
proof fn lemma_kept<T>(items: Seq<T>, keep: spec_fn(T) -> bool, k: int)
    requires
        0 <= k < kept(items, keep).len(),
    ensures
        0 <= kept(items, keep)[k] < items.len(),
        keep(items[kept(items, keep)[k]]),
    decreases items.len(),
{
    if items.len() > 0 {
        let rest = items.drop_last();
        if k < kept(rest, keep).len() {
            lemma_kept(rest, keep, k);
        }
    }
}

/// Every record that counts is kept.
proof fn lemma_all_kept<T>(items: Seq<T>, keep: spec_fn(T) -> bool, i: int)
    requires
        0 <= i < items.len(),
        keep(items[i]),
    ensures
        kept(items, keep).contains(i),
    decreases items.len(),
{
    let all = kept(items, keep);
    if i == items.len() - 1 {
        assert(all[all.len() - 1] == i);
    } else {
        let rest = items.drop_last();
        lemma_all_kept(rest, keep, i);
        let k = choose|k: int| 0 <= k < kept(rest, keep).len() && kept(rest, keep)[k] == i;
        assert(all[k] == i);
    }
}

/// A sender with a tenant is shown virtual machines of that tenant only, and all of them
/// that have the name, where one is asked for.
pub proof fn law_lists_stay_with_the_tenant(
    items: Seq<VmRecord>,
    own: Seq<char>,
    asked: Option<Seq<char>>,
    name: Option<Seq<char>>,
    i: int,
)
    requires
        list_scope(Some(own), asked) is Ok,
        0 <= i < items.len(),
    ensures
        kept(
            items,
            |vm: VmRecord| is_listed(vm, name, list_scope(Some(own), asked)->Ok_0),
        ).contains(i) == (owned_by(items[i].tenant, own) && (name matches Some(n)
            ==> items[i].name@ == n)),
{
    let scope = list_scope(Some(own), asked)->Ok_0;
    let keep = |vm: VmRecord| is_listed(vm, name, scope);
    let all = kept(items, keep);
    if all.contains(i) {
        let k = choose|k: int| 0 <= k < all.len() && all[k] == i;
        lemma_kept(items, keep, k);
    }
    if keep(items[i]) {
        lemma_all_kept(items, keep, i);
    }
}

// ---------------------------------------------------------------------------
// Creation
// ---------------------------------------------------------------------------

/// Whose the new thing is: the sender's tenant, where there is one, and else as asked.
/// To create for another tenant than one's own is refused.
pub open spec fn created_for(own: Option<Seq<char>>, asked: Option<Seq<char>>, what: Seq<char>) -> Result<
    Option<Seq<char>>,
    Seq<char>,
> {
    match own {
        None => Ok(asked),
        Some(t) => match asked {
            Some(body) => if body != t {
                Err(
                    "token tenant '"@ + t + "' cannot create "@ + what + " for tenant '"@ + body
                        + "'"@,
                )
            } else {
                Ok(Some(t))
            },
            None => Ok(Some(t)),
        },
    }
}

/// Settles whose the new thing is.
fn settle_tenant(own: &Option<String>, asked: &Option<String>, what: &str) -> (r: Result<
    Option<String>,
    ApiError,
>)
    ensures
        match (
            r,
            created_for(text::optional_string(*own), text::optional_string(*asked), what@),
        ) {
            (Ok(t), Ok(s)) => text::optional_string(t) == s,
            (Err(e), Err(m)) => auth::answers(e, 403, m),
            _ => false,
        },
{
    match own {
        None => Ok(copy_option(asked)),
        Some(t) => {
            if let Some(body) = asked {
                if !same(body.as_str(), t.as_str()) {
                    let head = cat("token tenant '", t.as_str());
                    let verb = cat(cat(head.as_str(), "' cannot create ").as_str(), what);
                    let object = cat(
                        cat(verb.as_str(), " for tenant '").as_str(),
                        body.as_str(),
                    );
                    return Err(ApiError::forbidden(cat(object.as_str(), "'")));
                }
            }
            Ok(Some(t.clone()))
        },
    }
}

/// Settles whose a new virtual machine is.
pub fn vm_tenant(own: &Option<String>, asked: &Option<String>) -> (r: Result<
    Option<String>,
    ApiError,
>)
    ensures
        match (
            r,
            created_for(text::optional_string(*own), text::optional_string(*asked), "VM"@),
        ) {
            (Ok(t), Ok(s)) => text::optional_string(t) == s,
            (Err(e), Err(m)) => auth::answers(e, 403, m),
            _ => false,
        },
{
    settle_tenant(own, asked, "VM")
}

/// Settles whose the virtual machines of a new pool are.
pub fn pool_tenant(own: &Option<String>, asked: &Option<String>) -> (r: Result<
    Option<String>,
    ApiError,
>)
    ensures
        match (
            r,
            created_for(text::optional_string(*own), text::optional_string(*asked), "a pool"@),
        ) {
            (Ok(t), Ok(s)) => text::optional_string(t) == s,
            (Err(e), Err(m)) => auth::answers(e, 403, m),
            _ => false,
        },
{
    settle_tenant(own, asked, "a pool")
}

/// What a sender with a tenant creates belongs to that tenant.
pub proof fn law_creation_stays_with_the_tenant(
    own: Seq<char>,
    asked: Option<Seq<char>>,
    what: Seq<char>,
)
    ensures
        created_for(Some(own), asked, what) matches Ok(t) ==> t == Some(own),
        asked is None ==> created_for(Some(own), asked, what) is Ok,
{
}

/// A number, or the largest one that fits.
pub open spec fn capped(n: nat) -> nat {
    if n > u64::MAX {
        u64::MAX as nat
    } else {
        n
    }
}

/// The memory of all virtual machines, in MiB.
pub open spec fn memory_of(items: Seq<VmRecord>) -> nat
    decreases items.len(),
{
    if items.len() == 0 {
        0
    } else {
        capped(memory_of(items.drop_last()) + items.last().memory_mib as nat)
    }
}

/// What a sender may use.
#[derive(Debug, Clone, Copy)]
pub struct Quotas {
    pub max_vms: Option<usize>,
    pub max_memory_mib: Option<u64>,
}

/// Senders who are not limited.
pub open spec fn is_unlimited(actor: Option<Seq<char>>) -> bool {
    match actor {
        None => true,
        Some(a) => a == "anonymous-admin"@ || a == "none"@,
    }
}

/// Why a sender may not create a virtual machine.
pub open spec fn quota_fault(
    actor: Option<Seq<char>>,
    q: Quotas,
    items: Seq<VmRecord>,
    memory_mib: u64,
) -> Option<Seq<char>> {
    if is_unlimited(actor) {
        None
    } else if q.max_vms matches Some(max) && items.len() >= max {
        Some(
            "token '"@ + actor->Some_0 + "' at max_vms_per_token ("@ + text::decimal_text(
                q.max_vms->Some_0 as nat,
            ) + ")"@,
        )
    } else if q.max_memory_mib matches Some(max) && capped(memory_of(items) + memory_mib as nat)
        > max {
        Some(
            "token '"@ + actor->Some_0 + "' would exceed max_memory_mib_per_token ("@
                + text::decimal_text(q.max_memory_mib->Some_0 as nat) + ")"@,
        )
    } else {
        None
    }
}

fn add_capped(a: u64, b: u64) -> (r: u64)
    ensures
        r == capped(a as nat + b as nat),
{
    if a > u64::MAX - b {
        u64::MAX
    } else {
        a + b
    }
}

/// The memory of all virtual machines, in MiB.
fn used_memory(items: &Vec<VmRecord>) -> (r: u64)
    ensures
        r == memory_of(items@),
{
    let mut total: u64 = 0;
    let mut i: usize = 0;
    assert(items@.take(0) =~= Seq::<VmRecord>::empty());
    while i < items.len()
        invariant
            i <= items.len(),
            total == memory_of(items@.take(i as int)),
        decreases items.len() - i,
    {
        assert(items@.take(i + 1).drop_last() =~= items@.take(i as int));
        total = add_capped(total, items[i].memory_mib);
        i += 1;
    }
    assert(items@.take(items.len() as int) =~= items@);
    total
}

/// Decides whether a sender may create a virtual machine with so much memory.
pub fn enforce_token_quotas(
    actor: &Option<String>,
    q: Quotas,
    items: &Vec<VmRecord>,
    memory_mib: u64,
) -> (r: Result<(), ApiError>)
    ensures
        match (r, quota_fault(text::optional_string(*actor), q, items@, memory_mib)) {
            (Ok(_), None) => true,
            (Err(e), Some(m)) => auth::answers(e, 403, m),
            _ => false,
        },
{
    let name = match actor {
        None => {
            return Ok(());
        },
        Some(a) => a,
    };
    if same(name.as_str(), "anonymous-admin") || same(name.as_str(), "none") {
        return Ok(());
    }
    if let Some(max) = q.max_vms {
        if items.len() >= max {
            let head = cat(cat("token '", name.as_str()).as_str(), "' at max_vms_per_token (");
            let body = cat(head.as_str(), u64_text(max as u64).as_str());
            return Err(ApiError::forbidden(cat(body.as_str(), ")")));
        }
    }
    if let Some(max) = q.max_memory_mib {
        if add_capped(used_memory(items), memory_mib) > max {
            let head = cat(
                cat("token '", name.as_str()).as_str(),
                "' would exceed max_memory_mib_per_token (",
            );
            let body = cat(head.as_str(), u64_text(max).as_str());
            return Err(ApiError::forbidden(cat(body.as_str(), ")")));
        }
    }
    Ok(())
}

} // verus!
