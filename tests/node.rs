use input_node::{
    ack_burst, ack_message, decode_command, decode_datagram, endpoint_text, frame_reading,
    ping_reply, plan_update, port_suffix, publish_tick, react, rebase_port, telemetry_message,
    CommandError, Config, ConfigArguments, Destination, DestinationCell, InboundCommand,
    MissingArgument, NodeIdentity, Reaction, ACK_REPEATS, DEFAULT_INTERVAL_MS,
};

const ACK: &str = "{\"success\":true,\"type\":\"updateTarget\"}";

#[test]
fn rebase_keeps_last_four_digits() {
    assert_eq!(port_suffix(15234), 5234);
    assert_eq!(rebase_port(20000, 15234), 25234);
    assert_eq!(rebase_port(0, 9999), 9999);
    assert_eq!(rebase_port(30000, 65535), 35535);
}

#[test]
fn rebase_wraps_past_u16_max() {
    assert_eq!(rebase_port(65535, 9999), 9998);
    assert_eq!(rebase_port(60000, 5536), 0);
}

#[test]
fn redirect_scenario() {
    let msg = b"{\"type\":\"updateTarget\",\"target\":\"10.0.0.5\",\"target_port_base\":20000}";
    match react(msg, 15234) {
        Ok(Reaction::Redirect(plan)) => {
            assert_eq!(plan.address, "10.0.0.5:25234");
            assert_eq!(plan.destination.host, "10.0.0.5");
            assert_eq!(plan.destination.port, 25234);
            assert_eq!(plan.acks.len(), 10);
            for a in &plan.acks {
                assert_eq!(a.as_bytes(), plan.acks[0].as_bytes());
                assert_eq!(a, ACK);
            }
            let mut cell = DestinationCell::new(Destination::new("127.0.0.1", 15234));
            cell.replace(plan.destination);
            let now = cell.read();
            assert_eq!(now.host, "10.0.0.5");
            assert_eq!(now.port, 25234);
            assert_eq!(now.to_text(), "10.0.0.5:25234");
        }
        _ => panic!("expected a redirect"),
    }
}

#[test]
fn ping_scenario() {
    let msg = b"{\"type\":\"udpPing\",\"replyTo\":\"127.0.0.1:9999\"}";
    match react(msg, 15234) {
        Ok(Reaction::Ping { reply_to }) => assert_eq!(reply_to, "127.0.0.1:9999"),
        _ => panic!("expected a ping"),
    }
    let reply = ping_reply(0x0102_0304_0506_0708);
    assert_eq!(reply.len(), 8);
    assert_eq!(reply, vec![1, 2, 3, 4, 5, 6, 7, 8]);
}

#[test]
fn ping_replies_keep_time_order() {
    let earlier = ping_reply(1_700_000_000_000_000);
    let later = ping_reply(1_700_000_000_000_001);
    assert!(earlier < later);
    assert_eq!(u64::from_be_bytes(later.clone().try_into().unwrap()), 1_700_000_000_000_001);
}

#[test]
fn malformed_datagram_is_rejected() {
    assert!(matches!(decode_datagram(b"not json"), Err(CommandError::NotJson)));
    assert!(matches!(react(b"not json", 1), Err(CommandError::NotJson)));
}

#[test]
fn non_utf8_datagram_is_rejected() {
    assert!(matches!(decode_datagram(&[0xff, 0xfe, b'{']), Err(CommandError::NotUtf8)));
}

#[test]
fn redirect_field_errors() {
    assert!(matches!(
        decode_command("{\"type\":\"updateTarget\",\"target\":\"10.0.0.5\"}"),
        Err(CommandError::MissingPortBase)
    ));
    assert!(matches!(
        decode_command("{\"type\":\"updateTarget\",\"target\":\"h\",\"target_port_base\":\"1\"}"),
        Err(CommandError::MissingPortBase)
    ));
    assert!(matches!(
        decode_command("{\"type\":\"updateTarget\",\"target\":\"h\",\"target_port_base\":65536}"),
        Err(CommandError::PortBaseOutOfRange)
    ));
    assert!(matches!(
        decode_command("{\"type\":\"updateTarget\",\"target_port_base\":1}"),
        Err(CommandError::MissingTarget)
    ));
    assert!(matches!(
        decode_command("{\"type\":\"udpPing\"}"),
        Err(CommandError::MissingReplyTo)
    ));
}

#[test]
fn largest_port_base_is_accepted() {
    match decode_command("{\"type\":\"updateTarget\",\"target\":\"h\",\"target_port_base\":65535}") {
        Ok(InboundCommand::UpdateTarget { target, port_base }) => {
            assert_eq!(target, "h");
            assert_eq!(port_base, 65535);
        }
        _ => panic!("expected a redirect"),
    }
}

#[test]
fn other_types_are_ignored() {
    assert!(matches!(decode_command("{\"type\":\"reboot\"}"), Ok(InboundCommand::Unknown)));
    assert!(matches!(decode_command("{\"kind\":\"udpPing\"}"), Ok(InboundCommand::Unknown)));
    assert!(matches!(decode_command("[1,2]"), Ok(InboundCommand::Unknown)));
    assert!(matches!(react(b"{\"type\":7}", 1), Ok(Reaction::Ignore)));
}

#[test]
fn ack_burst_is_ten_identical_messages() {
    assert_eq!(ack_message(), ACK);
    let burst = ack_burst();
    assert_eq!(burst.len(), ACK_REPEATS);
    assert_eq!(ACK_REPEATS, 10);
    assert!(burst.iter().all(|a| a == ACK));
}

#[test]
fn plan_update_direct() {
    let plan = plan_update("::1".to_string(), 1000, 42);
    assert_eq!(plan.destination.port, 1042);
    assert_eq!(plan.address, "::1:1042");
}

#[test]
fn endpoint_text_writes_decimal_port() {
    assert_eq!(endpoint_text("example", 0), "example:0");
    assert_eq!(endpoint_text("10.0.0.1", 65535), "10.0.0.1:65535");
}

#[test]
fn cell_replace_is_whole() {
    let mut cell = DestinationCell::new(Destination::new("a", 1));
    cell.replace(Destination::new("b", 2));
    cell.replace(Destination::new("c", 3));
    let d = cell.read();
    assert_eq!((d.host.as_str(), d.port), ("c", 3));
}

#[test]
fn telemetry_envelope_is_exact() {
    let id = NodeIdentity { area: "north".to_string(), flow_name: "flow1".to_string() };
    let m = telemetry_message(512, &id);
    assert_eq!(
        m,
        "{\"message\":\"512\",\"meta\":{\"execution_area\":\"north\",\"flow_name\":\"flow1\"}}"
    );
    let parsed: serde_json::Value = serde_json::from_str(&m).unwrap();
    assert_eq!(parsed["message"].as_str(), Some("512"));
}

#[test]
fn telemetry_labels_are_escaped() {
    let id = NodeIdentity { area: "a\"b".to_string(), flow_name: "x\\y".to_string() };
    let m = telemetry_message(0, &id);
    assert_eq!(
        m,
        "{\"message\":\"0\",\"meta\":{\"execution_area\":\"a\\\"b\",\"flow_name\":\"x\\\\y\"}}"
    );
}

#[test]
fn frame_reading_uses_given_literals() {
    assert_eq!(
        frame_reading(65535, "\"A\"", "\"F\""),
        "{\"message\":\"65535\",\"meta\":{\"execution_area\":\"A\",\"flow_name\":\"F\"}}"
    );
}

#[test]
fn publish_tick_addresses_current_destination() {
    let id = NodeIdentity { area: "ar".to_string(), flow_name: "fl".to_string() };
    let cell = DestinationCell::new(Destination::new("10.1.1.1", 7000));
    let out = publish_tick(&id, &cell);
    assert_eq!(out.to.host, "10.1.1.1");
    assert_eq!(out.to.port, 7000);
    assert_eq!(out.payload, telemetry_message(out.reading, &id));
}

fn args() -> ConfigArguments {
    ConfigArguments {
        area: Some("ar".to_string()),
        flow: Some("fl".to_string()),
        target_ip: Some("127.0.0.1".to_string()),
        target_port: Some(15234),
        outbound_port_data: Some(5000),
        outbound_port_acks: 0,
        inbound_port: Some(6000),
        interval: 1000,
        inbound_poll_interval: 10,
    }
}

#[test]
fn config_from_arguments() {
    let c = Config::from_arguments(args()).unwrap();
    assert_eq!(c.target_port, 15234);
    assert_eq!(c.outbound_port_acks, Some(0));
    assert_eq!(c.interval_ms(), 1000);
    assert_eq!(c.ack_port(), 0);
    let d = c.initial_destination();
    assert_eq!((d.host.as_str(), d.port), ("127.0.0.1", 15234));
    let id = c.identity();
    assert_eq!((id.area.as_str(), id.flow_name.as_str()), ("ar", "fl"));
}

#[test]
fn config_missing_argument() {
    let mut a = args();
    a.target_port = None;
    a.inbound_port = None;
    assert!(matches!(Config::from_arguments(a), Err(MissingArgument::TargetPort)));
    let mut b = args();
    b.area = None;
    assert!(matches!(Config::resolve(None, b), Err(MissingArgument::Area)));
}

#[test]
fn config_file_defaults_are_filled() {
    let file = Config {
        area: "x".to_string(),
        flow_name: "y".to_string(),
        target_ip: "1.2.3.4".to_string(),
        target_port: 1,
        outbound_port_data: 2,
        outbound_port_acks: None,
        inbound_port: 3,
        interval: Some(250),
        inbound_poll_interval: None,
    };
    let mut a = args();
    a.area = None;
    a.outbound_port_acks = 4444;
    let c = Config::resolve(Some(file), a).unwrap();
    assert_eq!(c.area, "x");
    assert_eq!(c.outbound_port_acks, Some(4444));
    assert_eq!(c.interval, Some(250));
    assert_eq!(c.inbound_poll_interval, Some(10));
    assert_eq!(DEFAULT_INTERVAL_MS, 1000);
}
