use doorbot::config::Config;
use doorbot::config::ConfigStorage;
use doorbot::gate::door_result_reply;
use doorbot::gate::maintainer_commands_handler;
use doorbot::gate::persist_reply;
use doorbot::gate::simple_commands_handler;
use doorbot::gate::MaintainerAction;
use doorbot::gate::MaintainerCommand;
use doorbot::gate::Requester;
use doorbot::gate::SimpleAction;
use doorbot::gate::SimpleCommand;
use doorbot::gate::StoreChange;
use doorbot::text::u64_to_string;

const MAINTAINER: u64 = 1;

fn store_with_alice() -> ConfigStorage {
    let mut store = ConfigStorage::new(
        "/tmp/doorbot-test.json",
        Config {
            maintainer_id: MAINTAINER,
            authorized_users: Vec::new(),
        },
    );
    store.add_user(String::from("Alice"), 42);
    store
}

fn requester(id: u64) -> Requester {
    Requester {
        id,
        username: Some(String::from("handle")),
        full_name: String::from("Full Name"),
    }
}

#[test]
fn my_id_replies_with_the_decimal_identity() {
    let store = store_with_alice();
    match simple_commands_handler(&store, &requester(42), &SimpleCommand::MyId) {
        SimpleAction::Reply { text } => assert_eq!(text, "42"),
        _ => panic!("expected a plain reply"),
    }
}

#[test]
fn help_lists_both_tiers() {
    let store = store_with_alice();
    match simple_commands_handler(&store, &requester(9), &SimpleCommand::Help) {
        SimpleAction::Reply { text } => {
            assert!(text.contains("/open_door"));
            assert!(text.contains("/add_user"));
            assert!(text.contains("/send_modem_cmd"));
        }
        _ => panic!("expected a plain reply"),
    }
}

#[test]
fn open_door_granted_for_listed_user_uses_recorded_name() {
    let store = store_with_alice();
    match simple_commands_handler(&store, &requester(42), &SimpleCommand::OpenDoor) {
        SimpleAction::OpenDoor { ack, audit } => {
            assert_eq!(ack, "Door is opening, hang on...");
            assert_eq!(audit, "Door opened by Alice (42)");
        }
        _ => panic!("expected door actuation"),
    }
}

#[test]
fn open_door_granted_for_unlisted_maintainer_uses_transport_handle() {
    let store = store_with_alice();
    match simple_commands_handler(&store, &requester(MAINTAINER), &SimpleCommand::OpenDoor) {
        SimpleAction::OpenDoor { ack: _, audit } => {
            assert_eq!(audit, "Door opened by handle (1)");
        }
        _ => panic!("expected door actuation"),
    }
}

#[test]
fn open_door_for_a_listed_maintainer_uses_the_recorded_name() {
    let mut store = store_with_alice();
    store.add_user(String::from("Root"), MAINTAINER);
    match simple_commands_handler(&store, &requester(MAINTAINER), &SimpleCommand::OpenDoor) {
        SimpleAction::OpenDoor { ack: _, audit } => {
            assert_eq!(audit, "Door opened by Root (1)");
        }
        _ => panic!("expected door actuation"),
    }
}

#[test]
fn open_door_falls_back_to_full_name_without_a_handle() {
    let store = store_with_alice();
    let req = Requester { id: 5, username: None, full_name: String::from("Full Name") };
    match simple_commands_handler(&store, &req, &SimpleCommand::OpenDoor) {
        SimpleAction::DeniedDoor { reply, audit } => {
            assert_eq!(reply, "You are not authorized to execute this command");
            assert_eq!(audit, "Unauthorized door opening attempt from Full Name (5)");
        }
        _ => panic!("expected a denial"),
    }
}

#[test]
fn door_outcome_replies() {
    assert_eq!(door_result_reply(true), "Door should be open. Welcome!");
    assert_eq!(door_result_reply(false), "Something went wrong");
}

#[test]
fn non_maintainer_privileged_commands_do_nothing() {
    let mut store = store_with_alice();
    let cmd = MaintainerCommand::AddUser { name: String::from("Eve"), id: 666 };
    let action = maintainer_commands_handler(&mut store, 42, cmd);
    assert!(matches!(action, MaintainerAction::Denied));
    assert_eq!(store.get_config().authorized_users.len(), 1);
    assert!(!store.is_authorized_for_door(666));

    let cmd = MaintainerCommand::SendModemCmd { modem_cmd: String::from("ATH0") };
    let action = maintainer_commands_handler(&mut store, 42, cmd);
    assert!(matches!(action, MaintainerAction::Denied));

    let cmd = MaintainerCommand::RemoveUser { name: String::from("Alice") };
    let action = maintainer_commands_handler(&mut store, 2, cmd);
    assert!(matches!(action, MaintainerAction::Denied));
    assert!(store.is_authorized_for_door(42));
}

#[test]
fn list_users_renders_all_entries() {
    let mut store = store_with_alice();
    store.add_user(String::from("Bob"), 7);
    match maintainer_commands_handler(&mut store, MAINTAINER, MaintainerCommand::ListUsers) {
        MaintainerAction::Reply { text } => assert_eq!(text, "[ Alice (42), Bob (7) ]"),
        _ => panic!("expected a listing"),
    }
}

#[test]
fn list_users_of_an_empty_list() {
    let mut store = ConfigStorage::new(
        "/tmp/doorbot-test.json",
        Config { maintainer_id: MAINTAINER, authorized_users: Vec::new() },
    );
    match maintainer_commands_handler(&mut store, MAINTAINER, MaintainerCommand::ListUsers) {
        MaintainerAction::Reply { text } => assert_eq!(text, "[  ]"),
        _ => panic!("expected a listing"),
    }
}

#[test]
fn add_user_then_list_includes_the_rendering() {
    let mut store = ConfigStorage::new(
        "/tmp/doorbot-test.json",
        Config { maintainer_id: MAINTAINER, authorized_users: Vec::new() },
    );
    let cmd = MaintainerCommand::AddUser { name: String::from("Alice"), id: 42 };
    match maintainer_commands_handler(&mut store, MAINTAINER, cmd) {
        MaintainerAction::Mutated { change: StoreChange::Added { rendered } } => {
            assert_eq!(rendered, "Alice (42)");
        }
        _ => panic!("expected a mutation"),
    }
    match maintainer_commands_handler(&mut store, MAINTAINER, MaintainerCommand::ListUsers) {
        MaintainerAction::Reply { text } => assert_eq!(text, "[ Alice (42) ]"),
        _ => panic!("expected a listing"),
    }
}

#[test]
fn remove_user_removes_exactly_that_entry() {
    let mut store = store_with_alice();
    store.add_user(String::from("Bob"), 7);
    let cmd = MaintainerCommand::RemoveUser { name: String::from("Alice") };
    match maintainer_commands_handler(&mut store, MAINTAINER, cmd) {
        MaintainerAction::Mutated { change: StoreChange::Removed { name } } => {
            assert_eq!(name, "Alice");
        }
        _ => panic!("expected a mutation"),
    }
    match maintainer_commands_handler(&mut store, MAINTAINER, MaintainerCommand::ListUsers) {
        MaintainerAction::Reply { text } => assert_eq!(text, "[ Bob (7) ]"),
        _ => panic!("expected a listing"),
    }
}

#[test]
fn removing_an_unknown_user_reports_not_found() {
    let mut store = store_with_alice();
    let cmd = MaintainerCommand::RemoveUser { name: String::from("Bob") };
    match maintainer_commands_handler(&mut store, MAINTAINER, cmd) {
        MaintainerAction::Reply { text } => assert_eq!(text, "User 'Bob' not found."),
        _ => panic!("expected a not-found reply"),
    }
    assert_eq!(store.get_config().authorized_users.len(), 1);
}

#[test]
fn send_modem_cmd_passes_the_line_through() {
    let mut store = store_with_alice();
    let cmd = MaintainerCommand::SendModemCmd { modem_cmd: String::from("ATH0") };
    match maintainer_commands_handler(&mut store, MAINTAINER, cmd) {
        MaintainerAction::SendModem { line } => assert_eq!(line, "ATH0"),
        _ => panic!("expected a raw send"),
    }
}

#[test]
fn persist_replies_cover_both_outcomes() {
    let added = StoreChange::Added { rendered: String::from("Alice (42)") };
    assert_eq!(
        persist_reply(&added, true, ""),
        "Authorized user 'Alice (42)' has been added."
    );
    assert_eq!(
        persist_reply(&added, false, "disk full"),
        "User 'Alice (42)' has been added, but an error occurred while saving: disk full."
    );
    let removed = StoreChange::Removed { name: String::from("Alice") };
    assert_eq!(
        persist_reply(&removed, true, ""),
        "Authorized user 'Alice' has been removed."
    );
    assert_eq!(
        persist_reply(&removed, false, "disk full"),
        "User 'Alice' has been removed, but an error occurred while saving: disk full."
    );
}

#[test]
fn identities_render_in_decimal() {
    assert_eq!(u64_to_string(0), "0");
    assert_eq!(u64_to_string(10), "10");
    assert_eq!(u64_to_string(9876543210), "9876543210");
}
