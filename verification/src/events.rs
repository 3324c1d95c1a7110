//! The two closed sets of discovery facts the bridge reacts to, and their
//! admission predicates.
//!
//! A `ROS2DiscoveryEvent` records that a ROS 2 interface appeared or
//! disappeared on a locally observed node. A `ROS2AnnouncementEvent` records
//! that a remote peer bridge created or removed a bridged route on the
//! overlay network.

use vstd::prelude::*;
use vstd::string::StringExecFns;

use crate::policy::{
    allow_by_default, name_allowed, node_allowed, reciprocal, Config, InterfaceKind,
};

verus! {

/// A locally observed ROS 2 publisher: its topic name and message type.
#[derive(Clone, Debug)]
pub struct MsgPub {
    pub name: String,
    pub typ: String,
}

/// A locally observed ROS 2 subscriber: its topic name and message type.
#[derive(Clone, Debug)]
pub struct MsgSub {
    pub name: String,
    pub typ: String,
}

/// A locally observed ROS 2 service server: its service name and type.
#[derive(Clone, Debug)]
pub struct ServiceSrv {
    pub name: String,
    pub typ: String,
}

/// A locally observed ROS 2 service client: its service name and type.
#[derive(Clone, Debug)]
pub struct ServiceCli {
    pub name: String,
    pub typ: String,
}

/// A locally observed ROS 2 action server: its action name and type.
#[derive(Clone, Debug)]
pub struct ActionSrv {
    pub name: String,
    pub typ: String,
}

/// A locally observed ROS 2 action client: its action name and type.
#[derive(Clone, Debug)]
pub struct ActionCli {
    pub name: String,
    pub typ: String,
}

/// A (local) discovery event of a ROS 2 interface: the interface of the given
/// kind appeared (`Discovered*`) or disappeared (`Undiscovered*`) on the node
/// named by the first field.
#[derive(Clone, Debug)]
pub enum ROS2DiscoveryEvent {
    DiscoveredMsgPub(String, MsgPub),
    UndiscoveredMsgPub(String, MsgPub),
    DiscoveredMsgSub(String, MsgSub),
    UndiscoveredMsgSub(String, MsgSub),
    DiscoveredServiceSrv(String, ServiceSrv),
    UndiscoveredServiceSrv(String, ServiceSrv),
    DiscoveredActionSrv(String, ActionSrv),
    UndiscoveredActionSrv(String, ActionSrv),
    DiscoveredServiceCli(String, ServiceCli),
    UndiscoveredServiceCli(String, ServiceCli),
    DiscoveredActionCli(String, ActionCli),
    UndiscoveredActionCli(String, ActionCli),
}

impl ROS2DiscoveryEvent {
    /// The name of the node the interface was observed on.
    pub open spec fn node_name(self) -> Seq<char> {
        match self {
            ROS2DiscoveryEvent::DiscoveredMsgPub(n, _) => n@,
            ROS2DiscoveryEvent::UndiscoveredMsgPub(n, _) => n@,
            ROS2DiscoveryEvent::DiscoveredMsgSub(n, _) => n@,
            ROS2DiscoveryEvent::UndiscoveredMsgSub(n, _) => n@,
            ROS2DiscoveryEvent::DiscoveredServiceSrv(n, _) => n@,
            ROS2DiscoveryEvent::UndiscoveredServiceSrv(n, _) => n@,
            ROS2DiscoveryEvent::DiscoveredServiceCli(n, _) => n@,
            ROS2DiscoveryEvent::UndiscoveredServiceCli(n, _) => n@,
            ROS2DiscoveryEvent::DiscoveredActionSrv(n, _) => n@,
            ROS2DiscoveryEvent::UndiscoveredActionSrv(n, _) => n@,
            ROS2DiscoveryEvent::DiscoveredActionCli(n, _) => n@,
            ROS2DiscoveryEvent::UndiscoveredActionCli(n, _) => n@,
        }
    }

    /// The logical (namespace-qualified) name of the interface.
    pub open spec fn iface_name(self) -> Seq<char> {
        match self {
            ROS2DiscoveryEvent::DiscoveredMsgPub(_, i) => i.name@,
            ROS2DiscoveryEvent::UndiscoveredMsgPub(_, i) => i.name@,
            ROS2DiscoveryEvent::DiscoveredMsgSub(_, i) => i.name@,
            ROS2DiscoveryEvent::UndiscoveredMsgSub(_, i) => i.name@,
            ROS2DiscoveryEvent::DiscoveredServiceSrv(_, i) => i.name@,
            ROS2DiscoveryEvent::UndiscoveredServiceSrv(_, i) => i.name@,
            ROS2DiscoveryEvent::DiscoveredServiceCli(_, i) => i.name@,
            ROS2DiscoveryEvent::UndiscoveredServiceCli(_, i) => i.name@,
            ROS2DiscoveryEvent::DiscoveredActionSrv(_, i) => i.name@,
            ROS2DiscoveryEvent::UndiscoveredActionSrv(_, i) => i.name@,
            ROS2DiscoveryEvent::DiscoveredActionCli(_, i) => i.name@,
            ROS2DiscoveryEvent::UndiscoveredActionCli(_, i) => i.name@,
        }
    }

    /// The kind of the interface the event is about.
    pub open spec fn kind(self) -> InterfaceKind {
        match self {
            ROS2DiscoveryEvent::DiscoveredMsgPub(_, _) => InterfaceKind::Publisher,
            ROS2DiscoveryEvent::UndiscoveredMsgPub(_, _) => InterfaceKind::Publisher,
            ROS2DiscoveryEvent::DiscoveredMsgSub(_, _) => InterfaceKind::Subscriber,
            ROS2DiscoveryEvent::UndiscoveredMsgSub(_, _) => InterfaceKind::Subscriber,
            ROS2DiscoveryEvent::DiscoveredServiceSrv(_, _) => InterfaceKind::ServiceServer,
            ROS2DiscoveryEvent::UndiscoveredServiceSrv(_, _) => InterfaceKind::ServiceServer,
            ROS2DiscoveryEvent::DiscoveredServiceCli(_, _) => InterfaceKind::ServiceClient,
            ROS2DiscoveryEvent::UndiscoveredServiceCli(_, _) => InterfaceKind::ServiceClient,
            ROS2DiscoveryEvent::DiscoveredActionSrv(_, _) => InterfaceKind::ActionServer,
            ROS2DiscoveryEvent::UndiscoveredActionSrv(_, _) => InterfaceKind::ActionServer,
            ROS2DiscoveryEvent::DiscoveredActionCli(_, _) => InterfaceKind::ActionClient,
            ROS2DiscoveryEvent::UndiscoveredActionCli(_, _) => InterfaceKind::ActionClient,
        }
    }

    /// Whether the event reports an interface appearing (as opposed to
    /// disappearing).
    pub open spec fn is_discovered(self) -> bool {
        match self {
            ROS2DiscoveryEvent::DiscoveredMsgPub(_, _) => true,
            ROS2DiscoveryEvent::UndiscoveredMsgPub(_, _) => false,
            ROS2DiscoveryEvent::DiscoveredMsgSub(_, _) => true,
            ROS2DiscoveryEvent::UndiscoveredMsgSub(_, _) => false,
            ROS2DiscoveryEvent::DiscoveredServiceSrv(_, _) => true,
            ROS2DiscoveryEvent::UndiscoveredServiceSrv(_, _) => false,
            ROS2DiscoveryEvent::DiscoveredServiceCli(_, _) => true,
            ROS2DiscoveryEvent::UndiscoveredServiceCli(_, _) => false,
            ROS2DiscoveryEvent::DiscoveredActionSrv(_, _) => true,
            ROS2DiscoveryEvent::UndiscoveredActionSrv(_, _) => false,
            ROS2DiscoveryEvent::DiscoveredActionCli(_, _) => true,
            ROS2DiscoveryEvent::UndiscoveredActionCli(_, _) => false,
        }
    }
}

/// The admission rule for discovery events.
///
/// With no policy configured every event is allowed. With an allow-list, the
/// event passes if the node or the interface name is listed (either axis
/// suffices). With a deny-list, the event passes only if neither the node nor
/// the interface name is listed: denial on either axis rejects.
pub open spec fn discovery_allowed(e: ROS2DiscoveryEvent, c: Config) -> bool {
    match c.allowance {
        None => true,
        Some(a) => if allow_by_default(a) {
            node_allowed(a, e.node_name()) && name_allowed(a, e.kind(), e.iface_name())
        } else {
            node_allowed(a, e.node_name()) || name_allowed(a, e.kind(), e.iface_name())
        },
    }
}

impl ROS2DiscoveryEvent {
    /// Whether bridging the interface this event is about is permitted under
    /// the configured policy.
    ///
    /// Note: an interface can pass an allow-list either by its own name or by
    /// its node's name (one axis suffices), while a deny-list rejects it on
    /// either axis. Whether mixed node/interface allow rules should instead
    /// demand both axes is an open question of the policy design; the
    /// disjunctive reading implemented here is the one pinned down by the
    /// lemmas in `laws` and by the admission tests.
    pub fn is_allowed(&self, config: &Config) -> (r: bool)
        ensures
            r == discovery_allowed(*self, *config),
    {
        match &config.allowance {
            Some(allowance) => {
                match self {
                    ROS2DiscoveryEvent::DiscoveredMsgPub(node, iface)
                    | ROS2DiscoveryEvent::UndiscoveredMsgPub(node, iface) => {
                        if allowance.is_allow_by_default() {
                            allowance.is_node_allowed(node)
                                && allowance.is_publisher_allowed(&iface.name)
                        } else {
                            allowance.is_node_allowed(node)
                                || allowance.is_publisher_allowed(&iface.name)
                        }
                    },
                    ROS2DiscoveryEvent::DiscoveredMsgSub(node, iface)
                    | ROS2DiscoveryEvent::UndiscoveredMsgSub(node, iface) => {
                        if allowance.is_allow_by_default() {
                            allowance.is_node_allowed(node)
                                && allowance.is_subscriber_allowed(&iface.name)
                        } else {
                            allowance.is_node_allowed(node)
                                || allowance.is_subscriber_allowed(&iface.name)
                        }
                    },
                    ROS2DiscoveryEvent::DiscoveredServiceSrv(node, iface)
                    | ROS2DiscoveryEvent::UndiscoveredServiceSrv(node, iface) => {
                        if allowance.is_allow_by_default() {
                            allowance.is_node_allowed(node)
                                && allowance.is_service_srv_allowed(&iface.name)
                        } else {
                            allowance.is_node_allowed(node)
                                || allowance.is_service_srv_allowed(&iface.name)
                        }
                    },
                    ROS2DiscoveryEvent::DiscoveredServiceCli(node, iface)
                    | ROS2DiscoveryEvent::UndiscoveredServiceCli(node, iface) => {
                        if allowance.is_allow_by_default() {
                            allowance.is_node_allowed(node)
                                && allowance.is_service_cli_allowed(&iface.name)
                        } else {
                            allowance.is_node_allowed(node)
                                || allowance.is_service_cli_allowed(&iface.name)
                        }
                    },
                    ROS2DiscoveryEvent::DiscoveredActionSrv(node, iface)
                    | ROS2DiscoveryEvent::UndiscoveredActionSrv(node, iface) => {
                        if allowance.is_allow_by_default() {
                            allowance.is_node_allowed(node)
                                && allowance.is_action_srv_allowed(&iface.name)
                        } else {
                            allowance.is_node_allowed(node)
                                || allowance.is_action_srv_allowed(&iface.name)
                        }
                    },
                    ROS2DiscoveryEvent::DiscoveredActionCli(node, iface)
                    | ROS2DiscoveryEvent::UndiscoveredActionCli(node, iface) => {
                        if allowance.is_allow_by_default() {
                            allowance.is_node_allowed(node)
                                && allowance.is_action_cli_allowed(&iface.name)
                        } else {
                            allowance.is_node_allowed(node)
                                || allowance.is_action_cli_allowed(&iface.name)
                        }
                    },
                }
            },
            None => true,
        }
    }
}

/// A (remote) announcement or retirement of a bridged ROS 2 interface,
/// received from a peer bridge on the overlay network.
///
/// `zenoh_id` identifies the remote bridge instance that owns the route;
/// `zenoh_key_expr` is the overlay-network address of the route, stable
/// across its lifetime. Announcements of publishers and subscribers carry the
/// remote type, whether the topic is keyless, and the remote side's QoS;
/// service and action announcements carry only the remote type. The QoS value
/// is an opaque payload of type `Q`, carried through unread.
#[derive(Clone, Debug)]
pub enum ROS2AnnouncementEvent<Q> {
    AnnouncedMsgPub {
        zenoh_id: String,
        zenoh_key_expr: String,
        ros2_type: String,
        keyless: bool,
        writer_qos: Q,
    },
    RetiredMsgPub { zenoh_id: String, zenoh_key_expr: String },
    AnnouncedMsgSub {
        zenoh_id: String,
        zenoh_key_expr: String,
        ros2_type: String,
        keyless: bool,
        reader_qos: Q,
    },
    RetiredMsgSub { zenoh_id: String, zenoh_key_expr: String },
    AnnouncedServiceSrv { zenoh_id: String, zenoh_key_expr: String, ros2_type: String },
    RetiredServiceSrv { zenoh_id: String, zenoh_key_expr: String },
    AnnouncedServiceCli { zenoh_id: String, zenoh_key_expr: String, ros2_type: String },
    RetiredServiceCli { zenoh_id: String, zenoh_key_expr: String },
    AnnouncedActionSrv { zenoh_id: String, zenoh_key_expr: String, ros2_type: String },
    RetiredActionSrv { zenoh_id: String, zenoh_key_expr: String },
    AnnouncedActionCli { zenoh_id: String, zenoh_key_expr: String, ros2_type: String },
    RetiredActionCli { zenoh_id: String, zenoh_key_expr: String },
}

impl<Q> ROS2AnnouncementEvent<Q> {
    /// The overlay-network address of the route the event is about.
    pub open spec fn key_expr(self) -> Seq<char> {
        match self {
            ROS2AnnouncementEvent::AnnouncedMsgPub { zenoh_key_expr, .. } => zenoh_key_expr@,
            ROS2AnnouncementEvent::RetiredMsgPub { zenoh_key_expr, .. } => zenoh_key_expr@,
            ROS2AnnouncementEvent::AnnouncedMsgSub { zenoh_key_expr, .. } => zenoh_key_expr@,
            ROS2AnnouncementEvent::RetiredMsgSub { zenoh_key_expr, .. } => zenoh_key_expr@,
            ROS2AnnouncementEvent::AnnouncedServiceSrv { zenoh_key_expr, .. } => zenoh_key_expr@,
            ROS2AnnouncementEvent::RetiredServiceSrv { zenoh_key_expr, .. } => zenoh_key_expr@,
            ROS2AnnouncementEvent::AnnouncedServiceCli { zenoh_key_expr, .. } => zenoh_key_expr@,
            ROS2AnnouncementEvent::RetiredServiceCli { zenoh_key_expr, .. } => zenoh_key_expr@,
            ROS2AnnouncementEvent::AnnouncedActionSrv { zenoh_key_expr, .. } => zenoh_key_expr@,
            ROS2AnnouncementEvent::RetiredActionSrv { zenoh_key_expr, .. } => zenoh_key_expr@,
            ROS2AnnouncementEvent::AnnouncedActionCli { zenoh_key_expr, .. } => zenoh_key_expr@,
            ROS2AnnouncementEvent::RetiredActionCli { zenoh_key_expr, .. } => zenoh_key_expr@,
        }
    }

    /// The kind of the remote interface the event is about.
    pub open spec fn kind(self) -> InterfaceKind {
        match self {
            ROS2AnnouncementEvent::AnnouncedMsgPub { .. } => InterfaceKind::Publisher,
            ROS2AnnouncementEvent::RetiredMsgPub { .. } => InterfaceKind::Publisher,
            ROS2AnnouncementEvent::AnnouncedMsgSub { .. } => InterfaceKind::Subscriber,
            ROS2AnnouncementEvent::RetiredMsgSub { .. } => InterfaceKind::Subscriber,
            ROS2AnnouncementEvent::AnnouncedServiceSrv { .. } => InterfaceKind::ServiceServer,
            ROS2AnnouncementEvent::RetiredServiceSrv { .. } => InterfaceKind::ServiceServer,
            ROS2AnnouncementEvent::AnnouncedServiceCli { .. } => InterfaceKind::ServiceClient,
            ROS2AnnouncementEvent::RetiredServiceCli { .. } => InterfaceKind::ServiceClient,
            ROS2AnnouncementEvent::AnnouncedActionSrv { .. } => InterfaceKind::ActionServer,
            ROS2AnnouncementEvent::RetiredActionSrv { .. } => InterfaceKind::ActionServer,
            ROS2AnnouncementEvent::AnnouncedActionCli { .. } => InterfaceKind::ActionClient,
            ROS2AnnouncementEvent::RetiredActionCli { .. } => InterfaceKind::ActionClient,
        }
    }

    /// Whether the event announces a new route (as opposed to retiring one).
    pub open spec fn is_announced(self) -> bool {
        match self {
            ROS2AnnouncementEvent::AnnouncedMsgPub { .. } => true,
            ROS2AnnouncementEvent::RetiredMsgPub { .. } => false,
            ROS2AnnouncementEvent::AnnouncedMsgSub { .. } => true,
            ROS2AnnouncementEvent::RetiredMsgSub { .. } => false,
            ROS2AnnouncementEvent::AnnouncedServiceSrv { .. } => true,
            ROS2AnnouncementEvent::RetiredServiceSrv { .. } => false,
            ROS2AnnouncementEvent::AnnouncedServiceCli { .. } => true,
            ROS2AnnouncementEvent::RetiredServiceCli { .. } => false,
            ROS2AnnouncementEvent::AnnouncedActionSrv { .. } => true,
            ROS2AnnouncementEvent::RetiredActionSrv { .. } => false,
            ROS2AnnouncementEvent::AnnouncedActionCli { .. } => true,
            ROS2AnnouncementEvent::RetiredActionCli { .. } => false,
        }
    }
}

/// The view of an optional resolved logical name.
pub open spec fn resolved_view(r: Option<&String>) -> Option<Seq<char>> {
    match r {
        Some(s) => Some(s@),
        None => None,
    }
}

/// The admission rule for announcement events.
///
/// `resolved` is the logical ROS 2 name that the external name-resolution
/// collaborator recovered from the event's route address, or `None` if it
/// could not recover one. With no policy configured every event is allowed.
/// With a policy, an unresolvable address is rejected; otherwise the resolved
/// name is checked against the rule of the *reciprocal* kind, since admitting
/// a remote interface of kind K creates a local interface of the complementary
/// kind. Node-level allow/deny rules are not consulted for announcement
/// events: only the single name axis is evaluated (a known limitation of the
/// current policy model, preserved deliberately).
pub open spec fn announcement_allowed<Q>(
    e: ROS2AnnouncementEvent<Q>,
    c: Config,
    resolved: Option<Seq<char>>,
) -> bool {
    match c.allowance {
        None => true,
        Some(a) => match resolved {
            None => false,
            Some(name) => name_allowed(a, reciprocal(e.kind()), name),
        },
    }
}

impl<Q> ROS2AnnouncementEvent<Q> {
    /// Whether acting on this remote announcement is permitted under the
    /// configured policy.
    ///
    /// `resolved_name` is the logical ROS 2 name resolved from the event's
    /// route address by the caller's name-resolution collaborator; `None`
    /// means resolution failed, and the event is rejected whenever a policy
    /// is configured. A remote announcement of kind K is checked against the
    /// local rule for the reciprocal kind: e.g. a remote publisher on a topic
    /// is allowed only if a local subscriber on that topic would be.
    pub fn is_allowed(&self, config: &Config, resolved_name: Option<&String>) -> (r: bool)
        ensures
            r == announcement_allowed(*self, *config, resolved_view(resolved_name)),
    {
        match &config.allowance {
            Some(allowance) => {
                match resolved_name {
                    Some(name) => {
                        match self {
                            ROS2AnnouncementEvent::AnnouncedMsgPub { .. }
                            | ROS2AnnouncementEvent::RetiredMsgPub { .. } => {
                                allowance.is_subscriber_allowed(name)
                            },
                            ROS2AnnouncementEvent::AnnouncedMsgSub { .. }
                            | ROS2AnnouncementEvent::RetiredMsgSub { .. } => {
                                allowance.is_publisher_allowed(name)
                            },
                            ROS2AnnouncementEvent::AnnouncedServiceSrv { .. }
                            | ROS2AnnouncementEvent::RetiredServiceSrv { .. } => {
                                allowance.is_service_cli_allowed(name)
                            },
                            ROS2AnnouncementEvent::AnnouncedServiceCli { .. }
                            | ROS2AnnouncementEvent::RetiredServiceCli { .. } => {
                                allowance.is_service_srv_allowed(name)
                            },
                            ROS2AnnouncementEvent::AnnouncedActionSrv { .. }
                            | ROS2AnnouncementEvent::RetiredActionSrv { .. } => {
                                allowance.is_action_cli_allowed(name)
                            },
                            ROS2AnnouncementEvent::AnnouncedActionCli { .. }
                            | ROS2AnnouncementEvent::RetiredActionCli { .. } => {
                                allowance.is_action_srv_allowed(name)
                            },
                        }
                    },
                    None => false,
                }
            },
            None => true,
        }
    }
}

/// The human-readable label of an interface kind, as used in rendered event
/// lines.
pub open spec fn kind_label(k: InterfaceKind) -> Seq<char> {
    match k {
        InterfaceKind::Publisher => "Publisher"@,
        InterfaceKind::Subscriber => "Subscriber"@,
        InterfaceKind::ServiceServer => "Service Server"@,
        InterfaceKind::ServiceClient => "Service Client"@,
        InterfaceKind::ActionServer => "Action Server"@,
        InterfaceKind::ActionClient => "Action Client"@,
    }
}

/// The rendered form of a discovery event:
/// `Node <node> declares <Kind> <name>` for an appearance,
/// `Node <node> undeclares <Kind> <name>` for a disappearance.
pub open spec fn render_discovery(e: ROS2DiscoveryEvent) -> Seq<char> {
    "Node "@ + e.node_name()
        + (if e.is_discovered() { " declares "@ } else { " undeclares "@ })
        + kind_label(e.kind()) + " "@ + e.iface_name()
}

/// The rendered form of an announcement event:
/// `announces <Kind> <route address>` for a creation,
/// `retires <Kind> <route address>` for a removal.
pub open spec fn render_announcement<Q>(e: ROS2AnnouncementEvent<Q>) -> Seq<char> {
    (if e.is_announced() { "announces "@ } else { "retires "@ })
        + kind_label(e.kind()) + " "@ + e.key_expr()
}

/// Builds `<prefix><subject><verb><label> <name>`.
fn render_line(prefix: &str, subject: &String, verb: &str, label: &str, name: &String) -> (r:
    String)
    ensures
        r@ == prefix@ + subject@ + verb@ + label@ + " "@ + name@,
{
    let mut s = String::from_str(prefix);
    s.append(subject.as_str());
    s.append(verb);
    s.append(label);
    s.append(" ");
    s.append(name.as_str());
    s
}

/// Builds `<verb><label> <address>`.
fn render_route_line(verb: &str, label: &str, address: &String) -> (r: String)
    ensures
        r@ == verb@ + label@ + " "@ + address@,
{
    let mut s = String::from_str(verb);
    s.append(label);
    s.append(" ");
    s.append(address.as_str());
    s
}

impl ROS2DiscoveryEvent {
    /// One human-readable line describing the event, for logs and
    /// diagnostics. The output is a function of the event value alone and is
    /// not meant to be parsed by other components.
    pub fn to_display_string(&self) -> (r: String)
        ensures
            r@ == render_discovery(*self),
    {
        match self {
            ROS2DiscoveryEvent::DiscoveredMsgPub(node, iface) => {
                render_line("Node ", node, " declares ", "Publisher", &iface.name)
            },
            ROS2DiscoveryEvent::UndiscoveredMsgPub(node, iface) => {
                render_line("Node ", node, " undeclares ", "Publisher", &iface.name)
            },
            ROS2DiscoveryEvent::DiscoveredMsgSub(node, iface) => {
                render_line("Node ", node, " declares ", "Subscriber", &iface.name)
            },
            ROS2DiscoveryEvent::UndiscoveredMsgSub(node, iface) => {
                render_line("Node ", node, " undeclares ", "Subscriber", &iface.name)
            },
            ROS2DiscoveryEvent::DiscoveredServiceSrv(node, iface) => {
                render_line("Node ", node, " declares ", "Service Server", &iface.name)
            },
            ROS2DiscoveryEvent::UndiscoveredServiceSrv(node, iface) => {
                render_line("Node ", node, " undeclares ", "Service Server", &iface.name)
            },
            ROS2DiscoveryEvent::DiscoveredServiceCli(node, iface) => {
                render_line("Node ", node, " declares ", "Service Client", &iface.name)
            },
            ROS2DiscoveryEvent::UndiscoveredServiceCli(node, iface) => {
                render_line("Node ", node, " undeclares ", "Service Client", &iface.name)
            },
            ROS2DiscoveryEvent::DiscoveredActionSrv(node, iface) => {
                render_line("Node ", node, " declares ", "Action Server", &iface.name)
            },
            ROS2DiscoveryEvent::UndiscoveredActionSrv(node, iface) => {
                render_line("Node ", node, " undeclares ", "Action Server", &iface.name)
            },
            ROS2DiscoveryEvent::DiscoveredActionCli(node, iface) => {
                render_line("Node ", node, " declares ", "Action Client", &iface.name)
            },
            ROS2DiscoveryEvent::UndiscoveredActionCli(node, iface) => {
                render_line("Node ", node, " undeclares ", "Action Client", &iface.name)
            },
        }
    }
}

impl<Q> ROS2AnnouncementEvent<Q> {
    /// One human-readable line describing the event, for logs and
    /// diagnostics. The output is a function of the event value alone and is
    /// not meant to be parsed by other components.
    pub fn to_display_string(&self) -> (r: String)
        ensures
            r@ == render_announcement(*self),
    {
        match self {
            ROS2AnnouncementEvent::AnnouncedMsgPub { zenoh_key_expr, .. } => {
                render_route_line("announces ", "Publisher", zenoh_key_expr)
            },
            ROS2AnnouncementEvent::RetiredMsgPub { zenoh_key_expr, .. } => {
                render_route_line("retires ", "Publisher", zenoh_key_expr)
            },
            ROS2AnnouncementEvent::AnnouncedMsgSub { zenoh_key_expr, .. } => {
                render_route_line("announces ", "Subscriber", zenoh_key_expr)
            },
            ROS2AnnouncementEvent::RetiredMsgSub { zenoh_key_expr, .. } => {
                render_route_line("retires ", "Subscriber", zenoh_key_expr)
            },
            ROS2AnnouncementEvent::AnnouncedServiceSrv { zenoh_key_expr, .. } => {
                render_route_line("announces ", "Service Server", zenoh_key_expr)
            },
            ROS2AnnouncementEvent::RetiredServiceSrv { zenoh_key_expr, .. } => {
                render_route_line("retires ", "Service Server", zenoh_key_expr)
            },
            ROS2AnnouncementEvent::AnnouncedServiceCli { zenoh_key_expr, .. } => {
                render_route_line("announces ", "Service Client", zenoh_key_expr)
            },
            ROS2AnnouncementEvent::RetiredServiceCli { zenoh_key_expr, .. } => {
                render_route_line("retires ", "Service Client", zenoh_key_expr)
            },
            ROS2AnnouncementEvent::AnnouncedActionSrv { zenoh_key_expr, .. } => {
                render_route_line("announces ", "Action Server", zenoh_key_expr)
            },
            ROS2AnnouncementEvent::RetiredActionSrv { zenoh_key_expr, .. } => {
                render_route_line("retires ", "Action Server", zenoh_key_expr)
            },
            ROS2AnnouncementEvent::AnnouncedActionCli { zenoh_key_expr, .. } => {
                render_route_line("announces ", "Action Client", zenoh_key_expr)
            },
            ROS2AnnouncementEvent::RetiredActionCli { zenoh_key_expr, .. } => {
                render_route_line("retires ", "Action Client", zenoh_key_expr)
            },
        }
    }
}

} // verus!
