//! The admission rules' guarantees, stated and proved once for every event.

use vstd::prelude::*;

use crate::events::{announcement_allowed, discovery_allowed, ROS2AnnouncementEvent,
    ROS2DiscoveryEvent};
use crate::policy::{
    in_list, kind_list, name_allowed, reciprocal, Allowance, Config, InterfaceLists,
};

verus! {

/// With no policy configured, every discovery event is allowed.
pub proof fn lemma_no_policy_allows_all_discovery(e: ROS2DiscoveryEvent, c: Config)
    requires
        c.allowance is None,
    ensures
        discovery_allowed(e, c),
{
}

/// With no policy configured, every announcement event is allowed, whether or
/// not its route address could be resolved to a logical name.
pub proof fn lemma_no_policy_allows_all_announcement<Q>(
    e: ROS2AnnouncementEvent<Q>,
    c: Config,
    resolved: Option<Seq<char>>,
)
    requires
        c.allowance is None,
    ensures
        announcement_allowed(e, c, resolved),
{
}

/// Under an allow-list, a discovery event is admitted exactly when its node
/// is listed or its interface name is listed under the event's kind: either
/// axis alone suffices, and the event is rejected only when both axes are
/// unlisted.
pub proof fn lemma_allow_list_admits_either_axis(e: ROS2DiscoveryEvent, l: InterfaceLists)
    ensures
        discovery_allowed(e, (Config { allowance: Some(Allowance::Allow(l)) })) == (in_list(
            l.nodes@,
            e.node_name(),
        ) || in_list(kind_list(l, e.kind()), e.iface_name())),
{
}

/// Under a deny-list, a discovery event is admitted exactly when neither its
/// node nor its interface name is listed under the event's kind: denial on
/// either axis alone rejects.
pub proof fn lemma_deny_list_rejects_either_axis(e: ROS2DiscoveryEvent, l: InterfaceLists)
    ensures
        discovery_allowed(e, (Config { allowance: Some(Allowance::Deny(l)) })) == (!in_list(
            l.nodes@,
            e.node_name(),
        ) && !in_list(kind_list(l, e.kind()), e.iface_name())),
{
}

/// The combination rule is the same for every interface kind: two discovery
/// events with the same node whose interface names fare the same under their
/// respective kinds' rules are admitted or rejected together, whatever their
/// kinds.
pub proof fn lemma_admission_uniform_across_kinds(
    e1: ROS2DiscoveryEvent,
    e2: ROS2DiscoveryEvent,
    c: Config,
)
    requires
        e1.node_name() == e2.node_name(),
        c.allowance matches Some(a) ==> name_allowed(a, e1.kind(), e1.iface_name())
            == name_allowed(a, e2.kind(), e2.iface_name()),
    ensures
        discovery_allowed(e1, c) == discovery_allowed(e2, c),
{
}

/// Under a configured policy, an announcement whose route address resolves to
/// the logical name `z` is admitted exactly when `z` passes the name rule of
/// the *reciprocal* kind: e.g. an announced remote publisher is allowed iff a
/// subscriber named `z` would be. Node rules play no part.
pub proof fn lemma_reciprocal_mapping<Q>(e: ROS2AnnouncementEvent<Q>, a: Allowance, z: Seq<char>)
    ensures
        announcement_allowed(e, (Config { allowance: Some(a) }), Some(z)) == name_allowed(
            a,
            reciprocal(e.kind()),
            z,
        ),
{
}

/// Under a configured policy, an announcement whose route address cannot be
/// resolved to a logical name is rejected.
pub proof fn lemma_unresolvable_announcement_rejected<Q>(e: ROS2AnnouncementEvent<Q>, a: Allowance)
    ensures
        !announcement_allowed(e, (Config { allowance: Some(a) }), None),
{
}

} // verus!
