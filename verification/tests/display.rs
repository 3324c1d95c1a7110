use ros2_events::events::{
    ActionCli, ActionSrv, MsgPub, MsgSub, ROS2AnnouncementEvent, ROS2DiscoveryEvent, ServiceCli,
    ServiceSrv,
};
use ros2_events::events::ROS2AnnouncementEvent::{
    AnnouncedActionCli, AnnouncedMsgPub, AnnouncedServiceSrv, RetiredActionSrv, RetiredMsgSub,
    RetiredServiceCli,
};
use ros2_events::events::ROS2DiscoveryEvent::{
    DiscoveredActionSrv, DiscoveredMsgPub, DiscoveredMsgSub, DiscoveredServiceCli,
    UndiscoveredActionCli, UndiscoveredMsgPub, UndiscoveredServiceSrv,
};

#[test]
fn test_discovery_event_display() {
    let e = DiscoveredMsgPub(
        "talker".to_string(),
        MsgPub {
            name: "/chatter".to_string(),
            typ: "std_msgs/msg/String".to_string(),
        },
    );
    assert_eq!(e.to_display_string(), "Node talker declares Publisher /chatter");
    let e = UndiscoveredMsgPub(
        "talker".to_string(),
        MsgPub {
            name: "/chatter".to_string(),
            typ: "std_msgs/msg/String".to_string(),
        },
    );
    assert_eq!(e.to_display_string(), "Node talker undeclares Publisher /chatter");
    let e = DiscoveredMsgSub(
        "listener".to_string(),
        MsgSub {
            name: "/chatter".to_string(),
            typ: "std_msgs/msg/String".to_string(),
        },
    );
    assert_eq!(e.to_display_string(), "Node listener declares Subscriber /chatter");
    let e = UndiscoveredServiceSrv(
        "server".to_string(),
        ServiceSrv {
            name: "/add_two_ints".to_string(),
            typ: "T".to_string(),
        },
    );
    assert_eq!(e.to_display_string(), "Node server undeclares Service Server /add_two_ints");
    let e = DiscoveredServiceCli(
        "client".to_string(),
        ServiceCli {
            name: "/add_two_ints".to_string(),
            typ: "T".to_string(),
        },
    );
    assert_eq!(e.to_display_string(), "Node client declares Service Client /add_two_ints");
    let e = DiscoveredActionSrv(
        "arm".to_string(),
        ActionSrv {
            name: "/move".to_string(),
            typ: "T".to_string(),
        },
    );
    assert_eq!(e.to_display_string(), "Node arm declares Action Server /move");
    let e = UndiscoveredActionCli(
        "pilot".to_string(),
        ActionCli {
            name: "/move".to_string(),
            typ: "T".to_string(),
        },
    );
    assert_eq!(e.to_display_string(), "Node pilot undeclares Action Client /move");
}

#[test]
fn test_announcement_event_display() {
    let e: ROS2AnnouncementEvent<u8> = AnnouncedMsgPub {
        zenoh_id: "peer".to_string(),
        zenoh_key_expr: "bridge/chatter".to_string(),
        ros2_type: "std_msgs/msg/String".to_string(),
        keyless: true,
        writer_qos: 0,
    };
    assert_eq!(e.to_display_string(), "announces Publisher bridge/chatter");
    let e: ROS2AnnouncementEvent<u8> = RetiredMsgSub {
        zenoh_id: "peer".to_string(),
        zenoh_key_expr: "bridge/chatter".to_string(),
    };
    assert_eq!(e.to_display_string(), "retires Subscriber bridge/chatter");
    let e: ROS2AnnouncementEvent<u8> = AnnouncedServiceSrv {
        zenoh_id: "peer".to_string(),
        zenoh_key_expr: "bridge/add_two_ints".to_string(),
        ros2_type: "T".to_string(),
    };
    assert_eq!(e.to_display_string(), "announces Service Server bridge/add_two_ints");
    let e: ROS2AnnouncementEvent<u8> = RetiredServiceCli {
        zenoh_id: "peer".to_string(),
        zenoh_key_expr: "bridge/add_two_ints".to_string(),
    };
    assert_eq!(e.to_display_string(), "retires Service Client bridge/add_two_ints");
    let e: ROS2AnnouncementEvent<u8> = AnnouncedActionCli {
        zenoh_id: "peer".to_string(),
        zenoh_key_expr: "bridge/move".to_string(),
        ros2_type: "T".to_string(),
    };
    assert_eq!(e.to_display_string(), "announces Action Client bridge/move");
    let e: ROS2AnnouncementEvent<u8> = RetiredActionSrv {
        zenoh_id: "peer".to_string(),
        zenoh_key_expr: "bridge/move".to_string(),
    };
    assert_eq!(e.to_display_string(), "retires Action Server bridge/move");
}

#[test]
fn test_display_deterministic() {
    let e = ROS2DiscoveryEvent::DiscoveredMsgPub(
        "talker".to_string(),
        MsgPub {
            name: "/chatter".to_string(),
            typ: "std_msgs/msg/String".to_string(),
        },
    );
    assert_eq!(e.to_display_string(), e.to_display_string());
    let a: ROS2AnnouncementEvent<u8> = ROS2AnnouncementEvent::RetiredMsgPub {
        zenoh_id: "peer".to_string(),
        zenoh_key_expr: "bridge/chatter".to_string(),
    };
    assert_eq!(a.to_display_string(), a.to_display_string());
}
