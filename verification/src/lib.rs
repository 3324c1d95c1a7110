//! Discovery-event and access-policy core of a bridge that mirrors ROS 2
//! interfaces (publishers, subscribers, services, actions) onto an overlay
//! pub/sub network and vice versa.
//!
//! Two concerns live here: a closed representation of the discovery facts the
//! bridge reacts to (locally observed ROS 2 interfaces, and routes announced
//! by remote peer bridges), and the admission predicates that decide, under an
//! administrator-supplied allow/deny policy, whether each such fact may be
//! bridged.

pub mod events;
pub mod laws;
pub mod policy;
