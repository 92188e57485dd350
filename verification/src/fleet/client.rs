//! The calls that a command line makes to the central registry.

use vstd::prelude::*;

use crate::fleet::central;
use crate::json;
use crate::json::{Js, Json};
use crate::text;
use crate::text::cat;

verus! {

/// The method of a call.
#[derive(Debug, Clone, Copy, PartialEq, Eq, Structural)]
pub enum Method {
    Get,
    Post,
    Delete,
}

/// A call to the registry.
pub struct FleetCall {
    pub method: Method,
    pub url: String,
    /// What the call does, for the message where it fails.
    pub what: String,
}

impl FleetCall {
    /// The call has this method, address and purpose.
    pub open spec fn is(self, method: Method, url: Seq<char>, what: Seq<char>) -> bool {
        self.method == method && self.url@ == url && self.what@ == what
    }

    /// The message for a reply that is no success.
    pub open spec fn failure(self, status: Seq<char>, body: Seq<char>) -> Seq<char> {
        self.what@ + " failed ("@ + status + "): "@ + body
    }

    /// Turns a reply that is no success into an error with its status and body.
    pub fn check_success(&self, success: bool, status: &str, body: &str) -> (r: Result<(), String>)
        ensures
            match r {
                Ok(_) => success,
                Err(e) => !success && e@ == self.failure(status@, body@),
            },
    {
        if success {
            return Ok(());
        }
        let mut message = cat(self.what.as_str(), " failed (");
        message.append(status);
        message.append("): ");
        message.append(body);
        Err(message)
    }
}

/// Text with quoted insertions: `a` + `x` + `b`.
fn around(a: &str, x: &str, b: &str) -> (r: String)
    ensures
        r@ == a@ + x@ + b@,
{
    let mut out = cat(a, x);
    out.append(b);
    out
}

/// Lists the nodes.
pub fn list_nodes(central: &str) -> (r: FleetCall)
    ensures
        r.is(Method::Get, central@ + "/fleet/nodes"@, "listing fleet nodes"@),
{
    FleetCall {
        method: Method::Get,
        url: cat(central, "/fleet/nodes"),
        what: "listing fleet nodes".to_owned(),
    }
}

/// Describes one node.
pub fn get_node(central: &str, name: &str) -> (r: FleetCall)
    ensures
        r.is(
            Method::Get,
            central@ + "/fleet/nodes/"@ + name@,
            "fetching node '"@ + name@ + "'"@,
        ),
{
    FleetCall {
        method: Method::Get,
        url: around(central, "/fleet/nodes/", name),
        what: around("fetching node '", name, "'"),
    }
}

/// What is done to a node's cordon.
pub open spec fn cordon_verb(cordon: bool) -> Seq<char> {
    if cordon {
        "cordon"@
    } else {
        "uncordon"@
    }
}

/// Cordons a node, or lifts its cordon.
pub fn set_cordoned(central: &str, name: &str, cordon: bool) -> (r: FleetCall)
    ensures
        r.is(
            Method::Post,
            central@ + "/fleet/nodes/"@ + name@ + "/"@ + cordon_verb(cordon),
            cordon_verb(cordon) + "ing node '"@ + name@ + "'"@,
        ),
{
    let verb = if cordon {
        "cordon"
    } else {
        "uncordon"
    };
    let mut url = around(central, "/fleet/nodes/", name);
    url.append("/");
    url.append(verb);
    let mut what = around(verb, "ing node '", name);
    what.append("'");
    FleetCall { method: Method::Post, url, what }
}

/// Keeps new machines away from a node.
pub fn cordon(central: &str, name: &str) -> (r: FleetCall)
    ensures
        r.is(
            Method::Post,
            central@ + "/fleet/nodes/"@ + name@ + "/"@ + "cordon"@,
            "cordon"@ + "ing node '"@ + name@ + "'"@,
        ),
{
    set_cordoned(central, name, true)
}

/// Lets new machines onto a node again.
pub fn uncordon(central: &str, name: &str) -> (r: FleetCall)
    ensures
        r.is(
            Method::Post,
            central@ + "/fleet/nodes/"@ + name@ + "/"@ + "uncordon"@,
            "uncordon"@ + "ing node '"@ + name@ + "'"@,
        ),
{
    set_cordoned(central, name, false)
}

/// Forgets a node.
pub fn deregister(central: &str, name: &str) -> (r: FleetCall)
    ensures
        r.is(
            Method::Delete,
            central@ + "/fleet/nodes/"@ + name@,
            "deregistering node '"@ + name@ + "'"@,
        ),
{
    FleetCall {
        method: Method::Delete,
        url: around(central, "/fleet/nodes/", name),
        what: around("deregistering node '", name, "'"),
    }
}

/// Asks for the totals of the fleet.
pub fn capacity(central: &str) -> (r: FleetCall)
    ensures
        r.is(Method::Get, central@ + "/fleet/capacity"@, "fetching fleet capacity"@),
{
    FleetCall {
        method: Method::Get,
        url: cat(central, "/fleet/capacity"),
        what: "fetching fleet capacity".to_owned(),
    }
}

/// The members of `m` with the labels of `selector` set on top.
pub open spec fn with_labels(m: Map<Seq<char>, Js>, selector: Seq<(String, String)>) -> Map<
    Seq<char>,
    Js,
>
    decreases selector.len(),
{
    if selector.len() == 0 {
        m
    } else {
        with_labels(m, selector.drop_last()).insert(
            selector.last().0@,
            Js::Str(selector.last().1@),
        )
    }
}

/// The body of a create request: the specification, with the node and the labels
/// that the command line gives set on top of what the specification says.
pub open spec fn create_body(
    spec: Js,
    node: Option<Seq<char>>,
    selector: Seq<(String, String)>,
) -> Result<Js, Seq<char>> {
    match spec {
        Js::Obj(_) => {
            let named = match node {
                Some(n) => spec.with("node"@, Js::Str(n)),
                None => spec,
            };
            if selector.len() == 0 {
                Ok(named)
            } else {
                match named.get("nodeSelector"@) {
                    None => Ok(
                        named.with("nodeSelector"@, Js::Obj(with_labels(Map::empty(), selector))),
                    ),
                    Some(Js::Obj(m)) => Ok(
                        named.with("nodeSelector"@, Js::Obj(with_labels(m, selector))),
                    ),
                    Some(_) => Err("VM spec's \"nodeSelector\" must be a JSON object"@),
                }
            }
        },
        _ => Err("VM spec must be a JSON object"@),
    }
}

/// Builds the body of a create request.
pub fn merge_create_body(spec: Json, node: Option<String>, selector: &Vec<(String, String)>) -> (r:
    Result<Json, String>)
    ensures
        match (r, create_body(spec.view(), text::optional_string(node), selector@)) {
            (Ok(j), Ok(b)) => j.view() == b,
            (Err(e), Err(m)) => e@ == m,
            _ => false,
        },
{
    match &spec {
        Json::Object(_) => {},
        _ => {
            return Err("VM spec must be a JSON object".to_owned());
        },
    }
    let named = match node {
        Some(n) => spec.with("node", Json::Text(n)),
        None => spec,
    };
    if selector.len() == 0 {
        return Ok(named);
    }
    let mut labels = match named.get("nodeSelector") {
        None => Json::object(),
        Some(existing) => match existing {
            Json::Object(_) => existing.copy(),
            _ => {
                return Err("VM spec's \"nodeSelector\" must be a JSON object".to_owned());
            },
        },
    };
    let ghost start = labels.view()->Obj_0;
    let mut i: usize = 0;
    assert(selector@.take(0) =~= Seq::<(String, String)>::empty());
    while i < selector.len()
        invariant
            i <= selector.len(),
            labels.view() == Js::Obj(with_labels(start, selector@.take(i as int))),
        decreases selector.len() - i,
    {
        proof {
            assert(selector@.take(i + 1).drop_last() =~= selector@.take(i as int));
        }
        labels = labels.with(selector[i].0.as_str(), Json::text(selector[i].1.as_str()));
        i += 1;
    }
    assert(selector@.take(selector.len() as int) =~= selector@);
    Ok(named.with("nodeSelector", labels))
}

/// Creates a machine somewhere in the fleet.
pub fn create_vm(central: &str) -> (r: FleetCall)
    ensures
        r.is(Method::Post, central@ + "/fleet/vms"@, "creating VM through fleet"@),
{
    FleetCall {
        method: Method::Post,
        url: cat(central, "/fleet/vms"),
        what: "creating VM through fleet".to_owned(),
    }
}

/// Lists the machines of the whole fleet.
pub fn list_vms(central: &str) -> (r: FleetCall)
    ensures
        r.is(Method::Get, central@ + "/fleet/vms"@, "listing fleet-wide VMs"@),
{
    FleetCall {
        method: Method::Get,
        url: cat(central, "/fleet/vms"),
        what: "listing fleet-wide VMs".to_owned(),
    }
}

/// Lists the machines of one node.
pub fn node_vms(central: &str, name: &str) -> (r: FleetCall)
    ensures
        r.is(
            Method::Get,
            central@ + "/fleet/nodes/"@ + name@ + "/vms"@,
            "listing VMs on node '"@ + name@ + "'"@,
        ),
{
    let mut url = around(central, "/fleet/nodes/", name);
    url.append("/vms");
    FleetCall { method: Method::Get, url, what: around("listing VMs on node '", name, "'") }
}

/// Deletes a machine.
pub fn delete_vm(central: &str, node: &str, id: &str) -> (r: FleetCall)
    ensures
        r.is(
            Method::Delete,
            central@ + "/fleet/vms/"@ + node@ + "/"@ + id@,
            "deleting VM "@ + id@ + " on node '"@ + node@ + "'"@,
        ),
{
    let mut url = around(central, "/fleet/vms/", node);
    url.append("/");
    url.append(id);
    let mut what = around("deleting VM ", id, " on node '");
    what.append(node);
    what.append("'");
    FleetCall { method: Method::Delete, url, what }
}

/// A machine that names a node on the command line asks the registry for that
/// node.
pub proof fn law_node_flag_reaches_the_registry(
    spec: Js,
    node: Seq<char>,
    selector: Seq<(String, String)>,
)
    requires
        spec is Obj,
    ensures
        create_body(spec, Some(node), selector) matches Ok(body)
            ==> central::requested_node(body) == Some(node),
{
    reveal_strlit("node");
    reveal_strlit("nodeSelector");
    assert("node"@.len() == 4 && "nodeSelector"@.len() == 12);
}

} // verus!
