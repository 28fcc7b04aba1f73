//! The closed registry of resource kinds and the route of each kind: the
//! lowercase, pluralized REST collection-path segment. The mapping is total
//! (every kind has a route, by exhaustive match) and injective (no two kinds
//! share a route), which `lemma_route_properties` states and proves.

use vstd::prelude::*;

verus! {

/// A tag identifying which resource type an object is. The enumeration is
/// closed: adding a kind is a single-point, compile-time-checked change,
/// since every match over `Kind` is exhaustive.
#[derive(Clone, Copy, Debug, PartialEq, Eq, Structural)]
pub enum Kind {
    DaemonSet,
    Deployment,
    ConfigMap,
    NetworkPolicy,
    Node,
    Pod,
    Secret,
    Service,
}

/// The collection-path segment of a kind, as a sequence of characters.
pub open spec fn spec_route(k: Kind) -> Seq<char> {
    match k {
        Kind::ConfigMap => "configmaps"@,
        Kind::DaemonSet => "daemonsets"@,
        Kind::Deployment => "deployments"@,
        Kind::NetworkPolicy => "networkpolicies"@,
        Kind::Node => "nodes"@,
        Kind::Pod => "pods"@,
        Kind::Secret => "secrets"@,
        Kind::Service => "services"@,
    }
}

/// The canonical display name of a kind: the tag name verbatim, never the
/// route.
pub open spec fn spec_display_name(k: Kind) -> Seq<char> {
    match k {
        Kind::ConfigMap => "ConfigMap"@,
        Kind::DaemonSet => "DaemonSet"@,
        Kind::Deployment => "Deployment"@,
        Kind::NetworkPolicy => "NetworkPolicy"@,
        Kind::Node => "Node"@,
        Kind::Pod => "Pod"@,
        Kind::Secret => "Secret"@,
        Kind::Service => "Service"@,
    }
}

/// Every character of `s` is an ASCII lowercase letter.
pub open spec fn all_lowercase(s: Seq<char>) -> bool {
    forall|i: int| 0 <= i < s.len() ==> 'a' <= #[trigger] s[i] <= 'z'
}

impl Kind {
    /// The REST collection-path segment for this kind.
    pub fn route(&self) -> (r: &'static str)
        ensures
            r@ == spec_route(*self),
    {
        match *self {
            Kind::ConfigMap => "configmaps",
            Kind::DaemonSet => "daemonsets",
            Kind::Deployment => "deployments",
            Kind::NetworkPolicy => "networkpolicies",
            Kind::Node => "nodes",
            Kind::Pod => "pods",
            Kind::Secret => "secrets",
            Kind::Service => "services",
        }
    }

    /// The canonical tag name of this kind, for display. Callers that need
    /// the collection route must call `route`, not rely on this text.
    pub fn display_name(&self) -> (r: &'static str)
        ensures
            r@ == spec_display_name(*self),
    {
        match *self {
            Kind::ConfigMap => "ConfigMap",
            Kind::DaemonSet => "DaemonSet",
            Kind::Deployment => "Deployment",
            Kind::NetworkPolicy => "NetworkPolicy",
            Kind::Node => "Node",
            Kind::Pod => "Pod",
            Kind::Secret => "Secret",
            Kind::Service => "Service",
        }
    }
}

/// The routes of the kind registry are non-empty, lowercase, and pairwise
/// distinct: two kinds with the same route are the same kind.
pub proof fn lemma_route_properties(k1: Kind, k2: Kind)
    ensures
        spec_route(k1).len() > 0,
        all_lowercase(spec_route(k1)),
        spec_route(k1) == spec_route(k2) ==> k1 == k2,
{
    reveal_strlit("configmaps");
    reveal_strlit("daemonsets");
    reveal_strlit("deployments");
    reveal_strlit("networkpolicies");
    reveal_strlit("nodes");
    reveal_strlit("pods");
    reveal_strlit("secrets");
    reveal_strlit("services");
    // Length together with the first character separates every pair of
    // routes, so equal routes force equal kinds.
    assert("configmaps"@.len() == 10 && "configmaps"@[0] == 'c');
    assert("daemonsets"@.len() == 10 && "daemonsets"@[0] == 'd');
    assert("deployments"@.len() == 11 && "deployments"@[0] == 'd');
    assert("networkpolicies"@.len() == 15 && "networkpolicies"@[0] == 'n');
    assert("nodes"@.len() == 5 && "nodes"@[0] == 'n');
    assert("pods"@.len() == 4 && "pods"@[0] == 'p');
    assert("secrets"@.len() == 7 && "secrets"@[0] == 's');
    assert("services"@.len() == 8 && "services"@[0] == 's');
}

} // verus!
