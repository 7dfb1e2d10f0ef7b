use bytes::Bytes;
use tanakai::capture::{
    delivery_step, extract_events, next_step, process_payload, process_raw_packet,
    step_after_read, CaptureError, DeliveryAction, DeliveryEvent, PipelineAction, PipelineEvent,
    PipelineState, PipelineStep, RawPacket,
};
use tanakai::models::photon_event::{EventValue, PhotonEvent, PhotonEventType};
use tanakai::photon::command::PhotonCommand;
use tanakai::photon::layer::PhotonLayer;
use tanakai::photon::parser::PhotonParser;

fn command(code: u8, channel: Option<u8>, parameters: &[(u8, &[u8])]) -> PhotonCommand {
    let mut command = PhotonCommand::new(code, channel);
    for (key, value) in parameters {
        command.add_parameter(*key, Bytes::copy_from_slice(value));
    }
    command
}

#[test]
fn a_new_event_has_no_data() {
    let event = PhotonEvent::with_timestamp(PhotonEventType::CombatEvent, 77, 4, Some(2));
    assert_eq!(event.event_type, PhotonEventType::CombatEvent);
    assert_eq!(event.timestamp, 77);
    assert_eq!(event.operation_code, 4);
    assert_eq!(event.channel_id, Some(2));
    assert!(event.data.is_empty());
    assert_eq!(event.get_data("anything"), None);
}

#[test]
fn a_new_event_is_made_now() {
    let before = tanakai::utils::clock::now_millis();
    let event = PhotonEvent::new(PhotonEventType::GuildUpdate, 21, None);
    let after = tanakai::utils::clock::now_millis();
    assert_eq!(event.event_type, PhotonEventType::GuildUpdate);
    assert_eq!(event.operation_code, 21);
    assert_eq!(event.channel_id, None);
    assert!(event.data.is_empty());
    assert!(before <= event.timestamp && event.timestamp <= after);
    assert!(before > 1_600_000_000_000);
}

#[test]
fn parse_command_makes_its_events_now() {
    let before = tanakai::utils::clock::now_millis();
    let events = PhotonParser::new(true).parse_command(&command(20, Some(4), &[(1, b"knights")]));
    let after = tanakai::utils::clock::now_millis();
    assert_eq!(events.len(), 1);
    assert_eq!(events[0].event_type, PhotonEventType::GuildUpdate);
    assert_eq!(events[0].channel_id, Some(4));
    assert_eq!(events[0].get_data("guild_id"), Some(&EventValue::Text("knights".to_string())));
    assert!(before <= events[0].timestamp && events[0].timestamp <= after);
    assert!(PhotonParser::new(true).parse_command(&command(99, None, &[(1, b"x")])).is_empty());
}

#[test]
fn add_data_puts_a_value_under_a_key() {
    let mut event = PhotonEvent::with_timestamp(PhotonEventType::Unknown, 0, 0, None);
    event.add_data("a", EventValue::Integer(1));
    event.add_data("b", EventValue::Text("two".to_string()));
    assert_eq!(event.get_data("a"), Some(&EventValue::Integer(1)));
    assert_eq!(event.get_data("b"), Some(&EventValue::Text("two".to_string())));
    assert_eq!(event.get_data("c"), None);
}

#[test]
fn add_data_replaces_the_value_under_a_key() {
    let mut event = PhotonEvent::with_timestamp(PhotonEventType::Unknown, 0, 0, None);
    event.add_data("a", EventValue::Integer(1));
    event.add_data("b", EventValue::Integer(2));
    event.add_data("a", EventValue::Integer(3));
    assert_eq!(event.get_data("a"), Some(&EventValue::Integer(3)));
    assert_eq!(event.get_data("b"), Some(&EventValue::Integer(2)));
}

#[test]
fn the_parser_remembers_whether_it_is_quiet() {
    assert!(PhotonParser::new(true).is_quiet());
    assert!(!PhotonParser::new(false).is_quiet());
}

#[test]
fn player_codes_give_a_player_event() {
    let parser = PhotonParser::new(true);
    for code in [1, 2] {
        let events = parser.parse_command_at(&command(code, Some(1), &[(1, b"Hi")]), 1234);
        assert_eq!(events.len(), 1);
        assert_eq!(events[0].event_type, PhotonEventType::PlayerAppear);
        assert_eq!(events[0].timestamp, 1234);
        assert_eq!(events[0].operation_code, code);
        assert_eq!(events[0].channel_id, Some(1));
        assert_eq!(events[0].data.len(), 1);
        assert_eq!(events[0].get_data("player_id"), Some(&EventValue::Text("Hi".to_string())));
    }
}

#[test]
fn a_player_command_without_an_id_gives_no_event() {
    let parser = PhotonParser::new(true);
    assert!(parser.parse_command_at(&command(1, None, &[]), 0).is_empty());
    assert!(parser.parse_command_at(&command(1, None, &[(2, b"Hi")]), 0).is_empty());
    assert!(parser.parse_command_at(&command(2, None, &[(1, &[0xff])]), 0).is_empty());
}

#[test]
fn market_codes_give_a_market_event() {
    let parser = PhotonParser::new(true);
    for code in [10, 11, 12] {
        let events = parser.parse_command_at(
            &command(code, None, &[(1, &[0x2a, 0, 0, 0]), (2, &[0xe8, 0x03, 0, 0])]),
            5,
        );
        assert_eq!(events.len(), 1);
        assert_eq!(events[0].event_type, PhotonEventType::MarketUpdate);
        assert_eq!(events[0].operation_code, code);
        assert_eq!(events[0].channel_id, None);
        assert_eq!(events[0].get_data("item_id"), Some(&EventValue::Integer(42)));
        assert_eq!(events[0].get_data("price"), Some(&EventValue::Integer(1000)));
    }
}

#[test]
fn a_market_event_without_a_price_holds_the_item_alone() {
    let parser = PhotonParser::new(true);
    let events = parser.parse_command_at(&command(10, None, &[(1, &[7, 0, 0, 0])]), 5);
    assert_eq!(events.len(), 1);
    assert_eq!(events[0].get_data("item_id"), Some(&EventValue::Integer(7)));
    assert_eq!(events[0].get_data("price"), None);
}

#[test]
fn a_market_event_reads_short_values_as_zero() {
    let parser = PhotonParser::new(true);
    let events = parser.parse_command_at(&command(11, None, &[(1, b"Hi"), (2, &[])]), 5);
    assert_eq!(events.len(), 1);
    assert_eq!(events[0].get_data("item_id"), Some(&EventValue::Integer(0)));
    assert_eq!(events[0].get_data("price"), Some(&EventValue::Integer(0)));
}

#[test]
fn a_market_command_without_an_item_gives_no_event() {
    let parser = PhotonParser::new(true);
    assert!(parser.parse_command_at(&command(10, None, &[(2, &[1, 0, 0, 0])]), 0).is_empty());
}

#[test]
fn guild_codes_give_a_guild_event() {
    let parser = PhotonParser::new(false);
    for code in [20, 21] {
        let events = parser.parse_command_at(&command(code, Some(9), &[(1, b"knights")]), 8);
        assert_eq!(events.len(), 1);
        assert_eq!(events[0].event_type, PhotonEventType::GuildUpdate);
        assert_eq!(events[0].operation_code, code);
        assert_eq!(events[0].get_data("guild_id"), Some(&EventValue::Text("knights".to_string())));
        assert_eq!(events[0].get_data("player_id"), None);
    }
}

#[test]
fn a_guild_command_without_an_id_gives_no_event() {
    let parser = PhotonParser::new(true);
    assert!(parser.parse_command_at(&command(20, None, &[]), 0).is_empty());
    assert!(parser.parse_command_at(&command(21, None, &[(1, &[0x80])]), 0).is_empty());
}

#[test]
fn other_codes_give_no_event() {
    let parser = PhotonParser::new(true);
    for code in [0u8, 3, 9, 13, 19, 22, 255] {
        let events =
            parser.parse_command_at(&command(code, None, &[(1, b"Hi"), (2, &[1, 0, 0, 0])]), 0);
        assert!(events.is_empty());
    }
}

#[test]
fn extract_events_keeps_the_order_of_the_commands() {
    let parser = PhotonParser::new(true);
    let commands = vec![
        command(20, None, &[(1, b"g")]),
        command(99, None, &[(1, b"x")]),
        command(1, None, &[(1, b"p")]),
        command(10, None, &[(1, &[1, 0, 0, 0])]),
    ];
    let events = extract_events(&parser, &commands, 3);
    let kinds: Vec<PhotonEventType> = events.iter().map(|event| event.event_type).collect();
    assert_eq!(
        kinds,
        vec![
            PhotonEventType::GuildUpdate,
            PhotonEventType::PlayerAppear,
            PhotonEventType::MarketUpdate
        ]
    );
    assert!(events.iter().all(|event| event.timestamp == 3));
}

#[test]
fn one_reliable_command_end_to_end() {
    let mut packet = vec![1, 0, 0, 1, 0, 0, 0, 0, 0, 0, 0, 0];
    packet.extend_from_slice(&[1, 6, 1, 0x81, 1, 2, b'H', b'i']);
    let mut layer = PhotonLayer::new();
    let commands = layer.process_packet(&packet).unwrap();
    assert_eq!(commands.len(), 1);
    assert_eq!(commands[0].operation_code, 1);
    assert_eq!(commands[0].channel_id, Some(1));
    assert_eq!(commands[0].parameters.len(), 1);
    assert_eq!(commands[0].get_bytes(1).unwrap().as_ref(), b"Hi");
    let events = PhotonParser::new(true).parse_command_at(&commands[0], 1);
    assert_eq!(events.len(), 1);
    assert_eq!(events[0].event_type, PhotonEventType::PlayerAppear);
    assert_eq!(events[0].operation_code, 1);
    assert_eq!(events[0].channel_id, Some(1));
    assert_eq!(events[0].get_data("player_id"), Some(&EventValue::Text("Hi".to_string())));
}

#[test]
fn a_payload_without_the_signature_is_passed_over() {
    let parser = PhotonParser::new(true);
    let mut layer = PhotonLayer::new();
    let mut packet = vec![1, 0, 10, 1, 0, 0, 0, 0, 0, 0, 0, 0];
    packet.extend_from_slice(&[1, 6, 1, 0x81, 1, 2, b'H', b'i']);
    assert!(process_payload(&mut layer, &parser, &packet, 1).is_empty());
    packet[2] = 0;
    packet[3] = 0;
    assert!(process_payload(&mut layer, &parser, &packet, 1).is_empty());
    packet[3] = 20;
    assert!(process_payload(&mut layer, &parser, &packet, 1).is_empty());
    assert!(process_payload(&mut layer, &parser, &[1, 0, 0], 1).is_empty());
}

#[test]
fn a_payload_with_the_signature_gives_its_events() {
    let parser = PhotonParser::new(true);
    let mut layer = PhotonLayer::new();
    let mut packet = vec![1, 0, 9, 2, 0, 0, 0, 0, 0, 0, 0, 0];
    packet.extend_from_slice(&[1, 6, 1, 0x81, 1, 2, b'H', b'i']);
    packet.extend_from_slice(&[0, 8, 12, 0, 1, 4, 5, 0, 0, 0]);
    let events = process_payload(&mut layer, &parser, &packet, 99);
    assert_eq!(events.len(), 2);
    assert_eq!(events[0].event_type, PhotonEventType::PlayerAppear);
    assert_eq!(events[1].event_type, PhotonEventType::MarketUpdate);
    assert_eq!(events[1].get_data("item_id"), Some(&EventValue::Integer(5)));
    assert_eq!(events[0].timestamp, 99);
}

#[test]
fn the_pipeline_starts_when_its_source_opens() {
    assert_eq!(
        next_step(PipelineState::Idle, PipelineEvent::SourceOpened),
        PipelineStep { state: PipelineState::Capturing, action: PipelineAction::ReadNext }
    );
    assert_eq!(
        next_step(PipelineState::Idle, PipelineEvent::SourceUnavailable),
        PipelineStep { state: PipelineState::Stopped, action: PipelineAction::ReportStartupFailure }
    );
}

#[test]
fn a_timeout_is_a_retry_and_a_failure_ends_the_capture() {
    assert_eq!(
        next_step(PipelineState::Capturing, PipelineEvent::SourceTimedOut),
        PipelineStep { state: PipelineState::Capturing, action: PipelineAction::ReadNext }
    );
    assert_eq!(
        next_step(PipelineState::Capturing, PipelineEvent::PacketCaptured),
        PipelineStep { state: PipelineState::Capturing, action: PipelineAction::DecodeAndSend }
    );
    assert_eq!(
        next_step(PipelineState::Capturing, PipelineEvent::SourceFailed),
        PipelineStep { state: PipelineState::Draining, action: PipelineAction::CloseChannel }
    );
}

#[test]
fn the_pipeline_stops_once_it_has_run_empty() {
    assert_eq!(
        next_step(PipelineState::Draining, PipelineEvent::ChannelDrained),
        PipelineStep { state: PipelineState::Stopped, action: PipelineAction::Finish }
    );
    assert_eq!(
        next_step(PipelineState::Draining, PipelineEvent::PacketCaptured),
        PipelineStep { state: PipelineState::Draining, action: PipelineAction::Nothing }
    );
    for event in [
        PipelineEvent::SourceOpened,
        PipelineEvent::SourceUnavailable,
        PipelineEvent::PacketCaptured,
        PipelineEvent::SourceTimedOut,
        PipelineEvent::SourceFailed,
        PipelineEvent::ChannelDrained,
    ] {
        assert_eq!(
            next_step(PipelineState::Stopped, event),
            PipelineStep { state: PipelineState::Stopped, action: PipelineAction::Nothing }
        );
    }
}

#[test]
fn a_read_from_the_source_is_reported_to_the_pipeline() {
    let payload = [0u8; 12];
    let packet = RawPacket { payload: &payload, timestamp: 1 };
    assert_eq!(
        step_after_read(PipelineState::Capturing, &Ok(packet)),
        PipelineStep { state: PipelineState::Capturing, action: PipelineAction::DecodeAndSend }
    );
    assert_eq!(
        step_after_read(PipelineState::Capturing, &Err(CaptureError::Timeout)),
        PipelineStep { state: PipelineState::Capturing, action: PipelineAction::ReadNext }
    );
    assert_eq!(
        step_after_read(PipelineState::Capturing, &Err(CaptureError::Other("gone".to_string()))),
        PipelineStep { state: PipelineState::Draining, action: PipelineAction::CloseChannel }
    );
    assert_eq!(
        step_after_read(PipelineState::Draining, &Ok(packet)),
        PipelineStep { state: PipelineState::Draining, action: PipelineAction::Nothing }
    );
}

#[test]
fn a_raw_packet_gives_its_events_at_its_time() {
    let parser = PhotonParser::new(true);
    let mut layer = PhotonLayer::new();
    let mut payload = vec![1, 0, 0, 1, 0, 0, 0, 0, 0, 0, 0, 0];
    payload.extend_from_slice(&[1, 6, 21, 0, 1, 2, b'o', b'k']);
    let packet = RawPacket { payload: &payload, timestamp: 4711 };
    let events = process_raw_packet(&mut layer, &parser, &packet);
    assert_eq!(events.len(), 1);
    assert_eq!(events[0].event_type, PhotonEventType::GuildUpdate);
    assert_eq!(events[0].timestamp, 4711);
    assert_eq!(events[0].get_data("guild_id"), Some(&EventValue::Text("ok".to_string())));
}

#[test]
fn a_failed_delivery_does_not_end_the_delivery() {
    assert_eq!(delivery_step(DeliveryEvent::EventReceived), DeliveryAction::Deliver);
    assert_eq!(delivery_step(DeliveryEvent::Delivered), DeliveryAction::ReceiveNext);
    assert_eq!(delivery_step(DeliveryEvent::DeliveryFailed), DeliveryAction::ReceiveNext);
    assert_eq!(delivery_step(DeliveryEvent::ChannelClosed), DeliveryAction::Finish);
}
