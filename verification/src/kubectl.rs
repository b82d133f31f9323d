//! Addressing resources in a cluster's API server.

use vstd::prelude::*;

verus! {

/// The cluster operations offered.
#[derive(Debug, Clone)]
pub enum Subcommand {
    /// Manage the rollout of a resource.
    Rollout(crate::rollout::Args),
}

/// The API server URL for a namespaced resource of the apps/v1 group. The
/// namespace and name are taken as given; they are not URL encoded.
pub fn make_url(server: &str, namespace: &str, kind: &str, name: &str) -> (r: String)
    ensures
        r@ == server@ + "/apis/apps/v1/namespaces/"@ + namespace@ + "/"@ + kind@ + "/"@ + name@
            + "?"@,
{
    let mut r: String = server.to_owned();
    r.append("/apis/apps/v1/namespaces/");
    r.append(namespace);
    r.append("/");
    r.append(kind);
    r.append("/");
    r.append(name);
    r.append("?");
    r
}

} // verus!
