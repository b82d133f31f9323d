//! Rollout management for a cluster resource: naming the resource to
//! restart, and the JSON merge patch that restarts it.

use vstd::prelude::*;

use crate::index::{json_string, spec_json_string};

verus! {

/// A rollout operation on a resource named `<kind>/<name>`.
#[derive(Debug, Clone)]
pub enum Subcommand {
    Restart { resource: String },
}

/// Arguments of the rollout command.
#[derive(Debug, Clone)]
pub struct Args {
    pub cmd: Subcommand,
}

/// Finds the first occurrence of a character.
fn find_char(s: &str, c: char) -> (r: Option<usize>)
    ensures
        r matches Some(i) ==> i < s@.len() && s@[i as int] == c && (forall|j: int|
            0 <= j < i ==> s@[j] != c),
        r is None ==> (forall|j: int| 0 <= j < s@.len() ==> s@[j] != c),
{
    let len = s.unicode_len();
    for i in 0..len
        invariant
            len == s@.len(),
            forall|j: int| 0 <= j < i ==> s@[j] != c,
    {
        if s.get_char(i) == c {
            return Some(i);
        }
    }
    None
}

/// Whether two string slices hold the same characters.
fn str_eq(a: &str, b: &str) -> (r: bool)
    ensures
        r == (a@ == b@),
{
    let la = a.unicode_len();
    let lb = b.unicode_len();
    if la != lb {
        return false;
    }
    for i in 0..la
        invariant
            la == a@.len(),
            lb == b@.len(),
            la == lb,
            forall|j: int| 0 <= j < i ==> a@[j] == b@[j],
    {
        if a.get_char(i) != b.get_char(i) {
            return false;
        }
    }
    proof {
        assert(a@ =~= b@);
    }
    true
}

/// Splits a `<kind>/<name>` resource argument. The only kind understood is
/// `deployment`, which names the `deployments` API resource; the name is
/// everything after the first slash and must not be empty. The error is the
/// message shown to the operator.
pub fn parse_resource(resource: &str) -> (r: Result<(String, String), String>)
    ensures
        (forall|j: int| 0 <= j < resource@.len() ==> resource@[j] != '/') ==> (r matches Err(m)
            && m@ == "resource must be specified as <kind>/<name>"@),
        r matches Ok((kind, name)) ==> exists|i: int|
            {
                &&& 0 <= i < resource@.len()
                &&& resource@[i] == '/'
                &&& (forall|j: int| 0 <= j < i ==> resource@[j] != '/')
                &&& resource@.subrange(0, i) == "deployment"@
                &&& i + 1 < resource@.len()
                &&& kind@ == "deployments"@
                &&& name@ == resource@.subrange(i + 1, resource@.len() as int)
            },
        forall|i: int|
            (0 <= i < resource@.len() && resource@[i] == '/' && (forall|j: int|
                0 <= j < i ==> resource@[j] != '/')) ==> #[trigger] holds_at_slash(
                resource@,
                i,
                r,
            ),
{
    let ind = match find_char(resource, '/') {
        Some(i) => i,
        None => {
            return Err("resource must be specified as <kind>/<name>".to_owned());
        },
    };
    let len = resource.unicode_len();
    let kind_part = resource.substring_char(0, ind);
    if !str_eq(kind_part, "deployment") {
        let mut m: String = "unknown resource kind '".to_owned();
        m.append(kind_part);
        m.append("'");
        return Err(m);
    }
    if !(ind + 1 < len) {
        return Err("the resource name was not provided".to_owned());
    }
    let name = resource.substring_char(ind + 1, len);
    Ok(("deployments".to_owned(), name.to_owned()))
}

/// What `parse_resource` returns when the first slash of the resource
/// argument stands at `i`: the `deployments` kind and the name after the
/// slash when the kind reads `deployment` and a name is present, and the
/// fitting error message otherwise.
pub open spec fn holds_at_slash(
    resource: Seq<char>,
    i: int,
    r: Result<(String, String), String>,
) -> bool {
    if resource.subrange(0, i) != "deployment"@ {
        r matches Err(m) && m@ == "unknown resource kind '"@ + resource.subrange(0, i) + "'"@
    } else if i + 1 >= resource.len() {
        r matches Err(m) && m@ == "the resource name was not provided"@
    } else {
        r matches Ok((kind, name)) && kind@ == "deployments"@ && name@ == resource.subrange(
            i + 1,
            resource.len() as int,
        )
    }
}

/// The JSON merge patch that restarts a resource by stamping its pod
/// template with a restart annotation holding the given timestamp.
pub fn restart_patch(timestamp: &str) -> (r: String)
    ensures
        r@ == "{\"spec\":{\"template\":{\"metadata\":{\"annotations\":{\"boh.kubernetes.io/restartedAt\":"@
            + spec_json_string(timestamp@) + "}}}}}"@,
{
    let mut r: String =
        "{\"spec\":{\"template\":{\"metadata\":{\"annotations\":{\"boh.kubernetes.io/restartedAt\":".to_owned();
    let ts = json_string(timestamp);
    r.append(ts.as_str());
    r.append("}}}}}");
    assert(r@ =~= "{\"spec\":{\"template\":{\"metadata\":{\"annotations\":{\"boh.kubernetes.io/restartedAt\":"@
        + spec_json_string(timestamp@) + "}}}}}"@);
    r
}

} // verus!
