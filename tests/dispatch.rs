use flight::address::SocketAddress;
use flight::dispatch::{dispatch_command, dispatch_encoded, encode_command, AddressBook, Dispatch};
use flight::handler::{abort_commands, actuate_valve, merge_mappings, session_may_act, ActuationError};
use flight::message::{NodeMapping, SamControlMessage, ValveState};

fn mapping(text_id: &str, board_id: &str, channel: u32, normally_closed: Option<bool>) -> NodeMapping {
    NodeMapping {
        text_id: text_id.to_string(),
        board_id: board_id.to_string(),
        channel,
        normally_closed,
    }
}

#[test]
fn valve_actuation_scenario() {
    let mappings = vec![mapping("valve1", "sam-01", 3, Some(true))];
    let command = actuate_valve("valve1", ValveState::Open, &mappings).unwrap();
    assert_eq!(command.board_id, "sam-01");
    assert_eq!(command.message, SamControlMessage::ActuateValve { channel: 3, powered: true });
}

#[test]
fn unmapped_command_produces_nothing() {
    let mappings = vec![mapping("valve1", "sam-01", 3, Some(true))];
    assert!(matches!(actuate_valve("ghost", ValveState::Closed, &mappings), Err(ActuationError::NotMapped)));
    assert!(matches!(actuate_valve("ghost", ValveState::Closed, &Vec::new()), Err(ActuationError::NotMapped)));
}

#[test]
fn powered_follows_normally_closed_bit() {
    let mappings = vec![
        mapping("nc", "sam-01", 1, Some(true)),
        mapping("no", "sam-02", 2, Some(false)),
        mapping("unset", "sam-03", 4, None),
    ];
    let powered = |name: &str, state: ValveState| match actuate_valve(name, state, &mappings).unwrap().message {
        SamControlMessage::ActuateValve { powered, .. } => powered,
        SamControlMessage::SetLed { .. } => panic!("not a valve command"),
    };
    assert!(powered("nc", ValveState::Open));
    assert!(!powered("nc", ValveState::Closed));
    assert!(!powered("no", ValveState::Open));
    assert!(powered("no", ValveState::Closed));
    assert!(powered("unset", ValveState::Open));
    assert!(!powered("unset", ValveState::Closed));
}

#[test]
fn first_mapping_of_a_name_wins() {
    let mappings = vec![mapping("v", "sam-01", 1, Some(true)), mapping("v", "sam-02", 2, Some(true))];
    let command = actuate_valve("v", ValveState::Closed, &mappings).unwrap();
    assert_eq!(command.board_id, "sam-01");
    assert_eq!(command.message, SamControlMessage::ActuateValve { channel: 1, powered: false });
}

#[test]
fn command_wire_form() {
    let valve = SamControlMessage::ActuateValve { channel: 3, powered: true };
    assert_eq!(encode_command(&valve), Some(vec![0, 3, 1]));
    let led = SamControlMessage::SetLed { channel: 300, on: false };
    assert_eq!(encode_command(&led), Some(vec![1, 0xAC, 0x02, 0]));
}

#[test]
fn address_book_insert_and_lookup() {
    let mut book = AddressBook::new();
    assert_eq!(book.lookup("sam-01"), None);
    book.insert("sam-01".to_string(), SocketAddress { ip: 0x0A000001, port: 5000 });
    book.insert("sam-02".to_string(), SocketAddress { ip: 0x0A000002, port: 5000 });
    book.insert("sam-01".to_string(), SocketAddress { ip: 0x0A000011, port: 6000 });
    assert_eq!(book.lookup("sam-01"), Some(SocketAddress { ip: 0x0A000011, port: 6000 }));
    assert_eq!(book.lookup("sam-02"), Some(SocketAddress { ip: 0x0A000002, port: 5000 }));
    assert_eq!(book.lookup("sam-0"), None);
}

#[test]
fn command_goes_to_board_host_on_command_port() {
    let mut book = AddressBook::new();
    book.insert("sam-01".to_string(), SocketAddress { ip: 0xC0A80010, port: 4573 });
    let valve = SamControlMessage::ActuateValve { channel: 3, powered: true };
    match dispatch_command(&book, "sam-01", &valve) {
        Dispatch::Send { bytes, address } => {
            assert_eq!(bytes, vec![0, 3, 1]);
            assert_eq!(address, SocketAddress { ip: 0xC0A80010, port: 8378 });
        }
        other => panic!("unexpected {:?}", other),
    }
}

#[test]
fn command_for_unknown_board_is_skipped() {
    let book = AddressBook::new();
    let led = SamControlMessage::SetLed { channel: 1, on: true };
    assert!(matches!(dispatch_command(&book, "sam-09", &led), Dispatch::UnknownBoard));
    assert!(matches!(dispatch_encoded(&book, "sam-09", Some(vec![1, 1, 1])), Dispatch::UnknownBoard));
}

#[test]
fn unserialisable_command_aborts() {
    let mut book = AddressBook::new();
    book.insert("sam-01".to_string(), SocketAddress { ip: 1, port: 1 });
    assert!(matches!(dispatch_encoded(&book, "sam-01", None), Dispatch::Abort));
    assert!(matches!(dispatch_encoded(&AddressBook::new(), "sam-01", None), Dispatch::Abort));
}

#[test]
fn small_and_large_channels_encode_as_varints() {
    let valve = SamControlMessage::ActuateValve { channel: 127, powered: false };
    assert_eq!(encode_command(&valve), Some(vec![0, 0x7F, 0]));
    let led = SamControlMessage::SetLed { channel: u32::MAX, on: true };
    assert_eq!(encode_command(&led), Some(vec![1, 0xFF, 0xFF, 0xFF, 0xFF, 0x0F, 1]));
}

#[test]
fn mapping_updates_are_merged_by_name() {
    let mut current = vec![mapping("a", "sam-01", 1, None), mapping("b", "sam-01", 2, None)];
    merge_mappings(&mut current, vec![mapping("b", "sam-02", 7, Some(false)), mapping("c", "sam-03", 3, None)]);
    assert_eq!(current.len(), 3);
    assert_eq!(current[0].text_id, "a");
    assert_eq!(current[0].board_id, "sam-01");
    assert_eq!(current[1].text_id, "b");
    assert_eq!(current[1].board_id, "sam-02");
    assert_eq!(current[1].channel, 7);
    assert_eq!(current[1].normally_closed, Some(false));
    assert_eq!(current[2].text_id, "c");
    merge_mappings(&mut current, vec![mapping("a", "sam-09", 9, None), mapping("a", "sam-10", 10, None)]);
    assert_eq!(current.len(), 3);
    assert_eq!(current[0].board_id, "sam-10");
    assert_eq!(current[0].channel, 10);
}

#[test]
fn abort_unpowers_every_mapped_valve() {
    let mappings = vec![mapping("v1", "sam-01", 3, Some(true)), mapping("v2", "sam-02", 5, Some(false))];
    let commands = abort_commands(&mappings);
    assert_eq!(commands.len(), 2);
    assert_eq!(commands[0].board_id, "sam-01");
    assert_eq!(commands[0].message, SamControlMessage::ActuateValve { channel: 3, powered: false });
    assert_eq!(commands[1].board_id, "sam-02");
    assert_eq!(commands[1].message, SamControlMessage::ActuateValve { channel: 5, powered: false });
    assert!(abort_commands(&Vec::new()).is_empty());
}

#[test]
fn only_the_running_session_may_act() {
    assert!(session_may_act(Some(4), 4));
    assert!(!session_may_act(Some(4), 3));
    assert!(!session_may_act(None, 4));
}
