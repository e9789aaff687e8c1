use tello::channel::{CommandChannel, TransportEvent};
use tello::command::{is_valid_command, Command};
use tello::error::{BatteryFault, IoFault, ProtocolFault, TelloError};
use tello::mission::{battery_sufficient, flight_plan, Step, LOW_BATTERY_PERCENT, SETTLE_SECONDS};
use tello::reply::{acknowledges, check_acknowledgement, check_battery, parse_battery, reply_text};

fn protocol_parts(e: &TelloError) -> (String, String, ProtocolFault) {
    match e {
        TelloError::Protocol { command, reply, fault } => (command.clone(), reply.clone(), *fault),
        TelloError::Io { .. } => panic!("expected a protocol error, got {:?}", e),
    }
}

/// Runs one round trip against a peer that answers with `reply`.
fn round_trip(channel: &mut CommandChannel, command: &str, reply: &[u8]) -> (Vec<u8>, Result<String, TelloError>) {
    let datagram = channel.begin(command);
    let outcome = channel.complete(TransportEvent::Reply(reply.to_vec()));
    (datagram, outcome)
}

#[test]
fn motion_commands_are_formatted_exactly() {
    assert_eq!(Command::RotateClockwise(90).wire_text(), "cw 90");
    assert_eq!(Command::MoveBackward(100).wire_text(), "back 100");
    assert_eq!(Command::MoveRight(100).wire_text(), "right 100");
}

#[test]
fn fixed_commands_are_formatted_exactly() {
    assert_eq!(Command::EnterControlMode.wire_text(), "command");
    assert_eq!(Command::TakeOff.wire_text(), "takeoff");
    assert_eq!(Command::Land.wire_text(), "land");
    assert_eq!(Command::QueryBattery.wire_text(), "battery?");
}

#[test]
fn numeric_arguments_at_the_edges() {
    assert_eq!(Command::RotateClockwise(0).wire_text(), "cw 0");
    assert_eq!(Command::MoveRight(7).wire_text(), "right 7");
    assert_eq!(Command::MoveBackward(10).wire_text(), "back 10");
    assert_eq!(Command::RotateClockwise(65535).wire_text(), "cw 65535");
}

#[test]
fn only_the_battery_query_is_not_an_action() {
    assert!(Command::TakeOff.is_action());
    assert!(Command::RotateClockwise(90).is_action());
    assert!(!Command::QueryBattery.is_action());
}

#[test]
fn command_validity() {
    assert!(is_valid_command("cw 90"));
    assert!(!is_valid_command(""));
    assert!(!is_valid_command("land\n"));
    assert!(!is_valid_command("a\rb"));
}

#[test]
fn acknowledgement_in_any_casing_succeeds() {
    for reply in ["ok", "OK", "Ok", "oK", "  ok", "ok\r\n", "\t OK \n", "\u{3000}ok\u{a0}"] {
        assert!(check_acknowledgement("takeoff", reply).is_ok(), "reply {:?}", reply);
        assert!(acknowledges(reply));
    }
}

#[test]
fn other_replies_are_protocol_errors_carrying_the_reply() {
    for reply in ["error", "okay", "o k", "", "  ", "no", "k", "ok!"] {
        let e = check_acknowledgement("cw 90", reply).unwrap_err();
        let (command, got, fault) = protocol_parts(&e);
        assert_eq!(command, "cw 90");
        assert_eq!(got, reply);
        assert_eq!(fault, ProtocolFault::NotAcknowledged);
    }
}

#[test]
fn rejected_acknowledgement_message() {
    let e = check_acknowledgement("takeoff", "error Motor stop").unwrap_err();
    assert_eq!(e.message(), "'takeoff' -> 'error Motor stop'");
}

#[test]
fn battery_percentages_parse() {
    assert_eq!(parse_battery("0"), Ok(0));
    assert_eq!(parse_battery("100"), Ok(100));
    assert_eq!(parse_battery("86"), Ok(86));
    assert_eq!(parse_battery(" 42\r\n"), Ok(42));
    assert_eq!(parse_battery("007"), Ok(7));
    assert_eq!(parse_battery("+50"), Ok(50));
    for n in 0..=100u8 {
        assert_eq!(parse_battery(&format!(" {}\n", n)), Ok(n));
    }
}

#[test]
fn battery_replies_out_of_form_are_refused() {
    assert_eq!(parse_battery("101"), Err(BatteryFault::AboveHundred));
    assert_eq!(parse_battery("256"), Err(BatteryFault::AboveHundred));
    assert_eq!(parse_battery("99999999999999999999"), Err(BatteryFault::AboveHundred));
    assert_eq!(parse_battery("-1"), Err(BatteryFault::InvalidDigit));
    assert_eq!(parse_battery("abc"), Err(BatteryFault::InvalidDigit));
    assert_eq!(parse_battery("+"), Err(BatteryFault::InvalidDigit));
    assert_eq!(parse_battery("5 0"), Err(BatteryFault::InvalidDigit));
    assert_eq!(parse_battery("999x"), Err(BatteryFault::InvalidDigit));
    assert_eq!(parse_battery(""), Err(BatteryFault::Empty));
    assert_eq!(parse_battery(" \n"), Err(BatteryFault::Empty));
}

#[test]
fn battery_errors_carry_the_literal_reply() {
    for (reply, fault) in [
        ("101", BatteryFault::AboveHundred),
        ("-1", BatteryFault::InvalidDigit),
        ("abc", BatteryFault::InvalidDigit),
        ("", BatteryFault::Empty),
    ] {
        let e = check_battery("battery?", reply).unwrap_err();
        let (command, got, f) = protocol_parts(&e);
        assert_eq!(command, "battery?");
        assert_eq!(got, reply);
        assert_eq!(f, ProtocolFault::Battery(fault));
        assert!(e.message().contains(&format!("'{}'", reply)));
    }
}

#[test]
fn battery_error_message() {
    let e = check_battery("battery?", "abc").unwrap_err();
    assert_eq!(e.message(), "parse battery failed: invalid digit found in string (got 'abc')");
    let e = check_battery("battery?", "101").unwrap_err();
    assert_eq!(e.message(), "parse battery failed: number above 100 (got '101')");
}

#[test]
fn successive_battery_queries_keep_no_state() {
    let mut channel = CommandChannel::new();
    let (_, first) = round_trip(&mut channel, "battery?", b"50");
    assert_eq!(check_battery("battery?", &first.unwrap()).unwrap(), 50);
    let (_, second) = round_trip(&mut channel, "battery?", b"49");
    assert_eq!(check_battery("battery?", &second.unwrap()).unwrap(), 49);
    assert!(channel.is_idle());
}

#[test]
fn round_trip_sends_the_command_bytes_and_trims_the_reply() {
    let mut channel = CommandChannel::new();
    assert!(channel.is_idle());
    let datagram = channel.begin("cw 90");
    assert_eq!(datagram, b"cw 90".to_vec());
    assert!(!channel.is_idle());
    let reply = channel.complete(TransportEvent::Reply(b"  ok\r\n".to_vec()));
    assert_eq!(reply.unwrap(), "ok");
    assert!(channel.is_idle());
}

#[test]
fn read_timeout_is_an_io_error_and_the_channel_stays_usable() {
    let mut channel = CommandChannel::new();
    channel.begin("takeoff");
    let e = channel.complete(TransportEvent::ReadTimedOut).unwrap_err();
    match &e {
        TelloError::Io { command, fault } => {
            assert_eq!(command, "takeoff");
            assert!(matches!(fault, IoFault::ReadTimedOut));
        }
        _ => panic!("expected an io error"),
    }
    assert_eq!(e.message(), "'takeoff': no reply before the read timeout");
    assert!(channel.is_idle());
    let (_, next) = round_trip(&mut channel, "land", b"ok");
    assert!(check_acknowledgement("land", &next.unwrap()).is_ok());
}

#[test]
fn write_timeout_and_socket_failure_are_io_errors() {
    let mut channel = CommandChannel::new();
    channel.begin("land");
    let e = channel.complete(TransportEvent::WriteTimedOut).unwrap_err();
    assert!(matches!(e, TelloError::Io { fault: IoFault::WriteTimedOut, .. }));
    assert_eq!(e.message(), "'land': write timed out");
    channel.begin("land");
    let e = channel.complete(TransportEvent::SocketFailure("network unreachable".to_string())).unwrap_err();
    assert_eq!(e.message(), "'land': socket failure: network unreachable");
    assert!(channel.is_idle());
}

#[test]
fn reply_bytes_are_decoded_lossily() {
    assert_eq!(reply_text(b"ok"), "ok");
    assert_eq!(reply_text(b" \tok \n"), "ok");
    assert_eq!(reply_text(&[0x6f, 0xff, 0x6b]), "o\u{fffd}k");
    assert_eq!(reply_text(b""), "");
    assert_eq!(reply_text("\u{3000}86 ".as_bytes()), "86");
    assert!(check_acknowledgement("land", &reply_text(&[0x6f, 0xff])).is_err());
}

#[test]
fn flight_plan_depends_on_the_battery_threshold() {
    assert_eq!(LOW_BATTERY_PERCENT, 15);
    assert!(!battery_sufficient(14));
    assert!(battery_sufficient(15));
    assert!(flight_plan(0).is_empty());
    assert!(flight_plan(14).is_empty());
    assert_eq!(flight_plan(15).len(), 6);
}

/// Plays the whole mission against a simulated peer that acknowledges every
/// action and answers the battery query with `battery`; returns the
/// commands sent and the pauses taken, in order.
fn fly_against_peer(battery: &str) -> (Vec<String>, Vec<u64>, bool) {
    let mut channel = CommandChannel::new();
    let mut sent = Vec::new();
    let mut pauses = Vec::new();
    let command = Command::EnterControlMode.wire_text();
    let (d, r) = round_trip(&mut channel, &command, b"ok");
    sent.push(String::from_utf8(d).unwrap());
    check_acknowledgement(&command, &r.unwrap()).unwrap();
    let query = Command::QueryBattery.wire_text();
    let (d, r) = round_trip(&mut channel, &query, battery.as_bytes());
    sent.push(String::from_utf8(d).unwrap());
    let level = check_battery(&query, &r.unwrap()).unwrap();
    let grounded = !battery_sufficient(level);
    for step in flight_plan(level) {
        match step {
            Step::Issue(c) => {
                let text = c.wire_text();
                let (d, r) = round_trip(&mut channel, &text, b"ok");
                sent.push(String::from_utf8(d).unwrap());
                check_acknowledgement(&text, &r.unwrap()).unwrap();
            }
            Step::Pause(secs) => pauses.push(secs),
        }
    }
    (sent, pauses, grounded)
}

#[test]
fn low_battery_issues_no_takeoff() {
    let (sent, pauses, grounded) = fly_against_peer("7");
    assert!(grounded);
    assert_eq!(sent, vec!["command", "battery?"]);
    assert!(pauses.is_empty());
}

#[test]
fn charged_battery_flies_the_script_in_order() {
    let (sent, pauses, grounded) = fly_against_peer("86");
    assert!(!grounded);
    assert_eq!(sent, vec!["command", "battery?", "takeoff", "cw 90", "back 100", "right 100", "land"]);
    assert_eq!(pauses, vec![SETTLE_SECONDS]);
    assert_eq!(SETTLE_SECONDS, 2);
    let plan = flight_plan(86);
    assert_eq!(plan[0], Step::Issue(Command::TakeOff));
    assert_eq!(plan[1], Step::Pause(2));
    assert_eq!(plan[2], Step::Issue(Command::RotateClockwise(90)));
}

#[test]
fn a_refused_step_stops_before_the_next_command() {
    let mut channel = CommandChannel::new();
    let (_, r) = round_trip(&mut channel, "takeoff", b"error No valid imu");
    let e = check_acknowledgement("takeoff", &r.unwrap()).unwrap_err();
    let (_, got, _) = protocol_parts(&e);
    assert_eq!(got, "error No valid imu");
    assert!(channel.is_idle());
}
