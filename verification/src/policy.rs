//! The policy snapshot consulted by the admission predicates.
//!
//! A snapshot is either an allow-list or a deny-list over interface names and
//! node names, per interface kind. Membership is an exact name match; the
//! snapshot is immutable for the duration of an admission check.

use vstd::prelude::*;

verus! {

/// The six kinds of ROS 2 interface the bridge can mirror.
#[derive(Clone, Copy, Debug, PartialEq, Eq, Structural)]
pub enum InterfaceKind {
    Publisher,
    Subscriber,
    ServiceServer,
    ServiceClient,
    ActionServer,
    ActionClient,
}

/// The complementary kind created locally when a remote interface of the
/// given kind is bridged: a remote publisher is mirrored by a local
/// subscriber, a remote service server by a local service client, and so on.
pub open spec fn reciprocal(k: InterfaceKind) -> InterfaceKind {
    match k {
        InterfaceKind::Publisher => InterfaceKind::Subscriber,
        InterfaceKind::Subscriber => InterfaceKind::Publisher,
        InterfaceKind::ServiceServer => InterfaceKind::ServiceClient,
        InterfaceKind::ServiceClient => InterfaceKind::ServiceServer,
        InterfaceKind::ActionServer => InterfaceKind::ActionClient,
        InterfaceKind::ActionClient => InterfaceKind::ActionServer,
    }
}

/// One name list per interface kind, plus a list of node names.
#[derive(Clone, Debug)]
pub struct InterfaceLists {
    pub publishers: Vec<String>,
    pub subscribers: Vec<String>,
    pub service_servers: Vec<String>,
    pub service_clients: Vec<String>,
    pub action_servers: Vec<String>,
    pub action_clients: Vec<String>,
    pub nodes: Vec<String>,
}

/// A policy snapshot: either an explicit allow-list (anything not listed is
/// denied) or an explicit deny-list (anything not listed is allowed).
#[derive(Clone, Debug)]
pub enum Allowance {
    Allow(InterfaceLists),
    Deny(InterfaceLists),
}

/// The part of the bridge configuration the admission predicates read.
/// `None` means no policy is configured: every event is allowed.
#[derive(Clone, Debug)]
pub struct Config {
    pub allowance: Option<Allowance>,
}

/// Whether `s` occurs in the list `l` (exact match).
pub open spec fn in_list(l: Seq<String>, s: Seq<char>) -> bool {
    exists|i: int| 0 <= i < l.len() && l[i]@ == s
}

/// The name list of `l` that governs interfaces of kind `k`.
pub open spec fn kind_list(l: InterfaceLists, k: InterfaceKind) -> Seq<String> {
    match k {
        InterfaceKind::Publisher => l.publishers@,
        InterfaceKind::Subscriber => l.subscribers@,
        InterfaceKind::ServiceServer => l.service_servers@,
        InterfaceKind::ServiceClient => l.service_clients@,
        InterfaceKind::ActionServer => l.action_servers@,
        InterfaceKind::ActionClient => l.action_clients@,
    }
}

/// Whether the snapshot's default disposition is to allow: true for a
/// deny-list (everything is allowed unless denied), false for an allow-list.
pub open spec fn allow_by_default(a: Allowance) -> bool {
    a is Deny
}

/// Whether the node named `node` passes the snapshot: listed in an
/// allow-list, or not listed in a deny-list.
pub open spec fn node_allowed(a: Allowance, node: Seq<char>) -> bool {
    match a {
        Allowance::Allow(l) => in_list(l.nodes@, node),
        Allowance::Deny(l) => !in_list(l.nodes@, node),
    }
}

/// Whether an interface of kind `k` named `name` passes the snapshot: listed
/// in the kind's allow-list, or not listed in the kind's deny-list.
pub open spec fn name_allowed(a: Allowance, k: InterfaceKind, name: Seq<char>) -> bool {
    match a {
        Allowance::Allow(l) => in_list(kind_list(l, k), name),
        Allowance::Deny(l) => !in_list(kind_list(l, k), name),
    }
}

/// Exact-match membership test over a name list.
fn list_contains(l: &Vec<String>, name: &String) -> (r: bool)
    ensures
        r == in_list(l@, name@),
{
    let mut i: usize = 0;
    while i < l.len()
        invariant
            0 <= i <= l@.len(),
            forall|j: int| 0 <= j < i ==> l@[j]@ != name@,
        decreases l@.len() - i,
    {
        if l[i] == *name {
            return true;
        }
        i = i + 1;
    }
    false
}

impl InterfaceLists {
    /// The list governing interfaces of kind `k`.
    fn list_for(&self, k: InterfaceKind) -> (r: &Vec<String>)
        ensures
            r@ == kind_list(*self, k),
    {
        match k {
            InterfaceKind::Publisher => &self.publishers,
            InterfaceKind::Subscriber => &self.subscribers,
            InterfaceKind::ServiceServer => &self.service_servers,
            InterfaceKind::ServiceClient => &self.service_clients,
            InterfaceKind::ActionServer => &self.action_servers,
            InterfaceKind::ActionClient => &self.action_clients,
        }
    }
}

impl Allowance {
    /// Whether the default disposition is to allow (the snapshot is a
    /// deny-list).
    pub fn is_allow_by_default(&self) -> (r: bool)
        ensures
            r == allow_by_default(*self),
    {
        match self {
            Allowance::Allow(_) => false,
            Allowance::Deny(_) => true,
        }
    }

    /// Whether the node named `node` passes this snapshot.
    pub fn is_node_allowed(&self, node: &String) -> (r: bool)
        ensures
            r == node_allowed(*self, node@),
    {
        match self {
            Allowance::Allow(l) => list_contains(&l.nodes, node),
            Allowance::Deny(l) => !list_contains(&l.nodes, node),
        }
    }

    /// Whether an interface of kind `k` named `name` passes this snapshot.
    pub fn is_interface_allowed(&self, k: InterfaceKind, name: &String) -> (r: bool)
        ensures
            r == name_allowed(*self, k, name@),
    {
        match self {
            Allowance::Allow(l) => list_contains(l.list_for(k), name),
            Allowance::Deny(l) => !list_contains(l.list_for(k), name),
        }
    }

    /// Whether a publisher named `name` passes this snapshot.
    pub fn is_publisher_allowed(&self, name: &String) -> (r: bool)
        ensures
            r == name_allowed(*self, InterfaceKind::Publisher, name@),
    {
        self.is_interface_allowed(InterfaceKind::Publisher, name)
    }

    /// Whether a subscriber named `name` passes this snapshot.
    pub fn is_subscriber_allowed(&self, name: &String) -> (r: bool)
        ensures
            r == name_allowed(*self, InterfaceKind::Subscriber, name@),
    {
        self.is_interface_allowed(InterfaceKind::Subscriber, name)
    }

    /// Whether a service server named `name` passes this snapshot.
    pub fn is_service_srv_allowed(&self, name: &String) -> (r: bool)
        ensures
            r == name_allowed(*self, InterfaceKind::ServiceServer, name@),
    {
        self.is_interface_allowed(InterfaceKind::ServiceServer, name)
    }

    /// Whether a service client named `name` passes this snapshot.
    pub fn is_service_cli_allowed(&self, name: &String) -> (r: bool)
        ensures
            r == name_allowed(*self, InterfaceKind::ServiceClient, name@),
    {
        self.is_interface_allowed(InterfaceKind::ServiceClient, name)
    }

    /// Whether an action server named `name` passes this snapshot.
    pub fn is_action_srv_allowed(&self, name: &String) -> (r: bool)
        ensures
            r == name_allowed(*self, InterfaceKind::ActionServer, name@),
    {
        self.is_interface_allowed(InterfaceKind::ActionServer, name)
    }

    /// Whether an action client named `name` passes this snapshot.
    pub fn is_action_cli_allowed(&self, name: &String) -> (r: bool)
        ensures
            r == name_allowed(*self, InterfaceKind::ActionClient, name@),
    {
        self.is_interface_allowed(InterfaceKind::ActionClient, name)
    }
}

} // verus!
