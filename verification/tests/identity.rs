use headless_sdk::command::Command;
use headless_sdk::identity::{handle_get_id, handle_set_id, id_step, plain_record};
use headless_sdk::identity::{IdAction, IdEvent, IdRecord, IdState};

fn command(word: &str) -> Command {
    Command {
        id: 5,
        cmd: word.to_string(),
        peer_id: String::new(),
        password: String::new(),
        action: String::new(),
        x: 0,
        y: 0,
        button: String::new(),
        key: String::new(),
        keys_seq: Vec::new(),
        check_server: false,
        quality: String::new(),
        value: 0,
        fps: 0,
        display: 0,
        width: 0,
        height: 0,
    }
}

fn id(current: &str) -> IdEvent {
    IdEvent::Id { current: current.to_string() }
}

fn change(new_id: &str, check_server: bool) -> (IdState, IdAction) {
    let mut cmd = command("set_id");
    cmd.peer_id = new_id.to_string();
    cmd.check_server = check_server;
    handle_set_id(7, &cmd)
}

fn reply(action: IdAction) -> String {
    match action {
        IdAction::Reply { text } => text,
        _ => panic!("no reply"),
    }
}

#[test]
fn the_id_is_read_and_reported() {
    let (state, action) = handle_get_id(8);
    assert!(matches!(action, IdAction::ReadId));
    let (state, action) = id_step(state, id("37513141"));
    assert!(matches!(state, IdState::Done));
    assert_eq!(reply(action), "{\"id\":8,\"ok\":true,\"peer_id\":\"37513141\"}");
}

#[test]
fn a_change_to_nothing_is_refused() {
    let (state, action) = change("", true);
    assert!(matches!(state, IdState::Done));
    assert_eq!(reply(action), "{\"error\":\"peer_id is required\",\"id\":7,\"ok\":false}");
}

fn record() -> IdRecord {
    let mut rest = serde_json::Map::new();
    rest.insert("salt".to_string(), serde_json::Value::from("pepper"));
    rest.insert("key_pair".to_string(), serde_json::Value::from(vec![1, 2, 3]));
    IdRecord { id: String::new(), enc_id: Some("00secret".to_string()), rest }
}

#[test]
fn a_plain_record_keeps_the_other_fields() {
    let plain = plain_record(record(), "42".to_string());
    assert_eq!(plain.id, "42");
    assert_eq!(plain.enc_id, None);
    assert_eq!(plain.rest, record().rest);
}

#[test]
fn an_unchecked_change_is_written_twice() {
    let (state, action) = change("42", false);
    assert!(matches!(action, IdAction::ReadId));
    let (state, action) = id_step(state, id("41"));
    match action {
        IdAction::WriteId { new_id } => assert_eq!(new_id, "42"),
        _ => panic!("not written"),
    }
    let (state, action) = id_step(state, IdEvent::Written);
    assert!(matches!(action, IdAction::LoadRecord));
    let (state, action) = id_step(state, IdEvent::Loaded { record: record() });
    match action {
        IdAction::StoreRecord { record: plain } => {
            assert_eq!(plain.id, "42");
            assert_eq!(plain.enc_id, None);
            assert_eq!(plain.rest, record().rest);
        }
        _ => panic!("not stored"),
    }
    let (state, action) = id_step(state, IdEvent::Stored);
    assert!(matches!(action, IdAction::ReadId));
    let (state, action) = id_step(state, id("42"));
    assert!(matches!(state, IdState::Done));
    assert_eq!(reply(action), "{\"id\":7,\"ok\":true,\"peer_id\":\"42\"}");
}

#[test]
fn a_failed_plain_write_does_not_change_the_reply() {
    for loads in [true, false] {
        let (state, _) = change("42", false);
        let (state, _) = id_step(state, id("41"));
        let (mut state, _) = id_step(state, IdEvent::Written);
        if loads {
            state = id_step(state, IdEvent::Loaded { record: record() }).0;
        }
        let (state, action) = id_step(state, IdEvent::Failed);
        assert!(matches!(action, IdAction::ReadId));
        let (state, action) = id_step(state, id("42"));
        assert!(matches!(state, IdState::Done));
        assert_eq!(reply(action), "{\"id\":7,\"ok\":true,\"peer_id\":\"42\"}");
    }
}

#[test]
fn an_unchecked_change_to_the_same_id_writes_nothing() {
    let (state, _) = change("42", false);
    let (state, action) = id_step(state, id("42"));
    assert!(matches!(action, IdAction::ReadId));
    assert!(matches!(state, IdState::Reporting { id: 7 }));
}

#[test]
fn a_checked_change_is_left_to_the_server() {
    let (state, _) = change("newname", true);
    let (state, action) = id_step(state, id("oldname"));
    match action {
        IdAction::ChangeOnServer { new_id, old_id } => {
            assert_eq!((new_id.as_str(), old_id.as_str()), ("newname", "oldname"));
        }
        _ => panic!("not asked"),
    }
    let (state, action) = id_step(state, IdEvent::Answer { err: String::new() });
    assert!(matches!(action, IdAction::ReadId));
    let (_, action) = id_step(state, id("newname"));
    assert_eq!(reply(action), "{\"id\":7,\"ok\":true,\"peer_id\":\"newname\"}");
}

#[test]
fn what_the_server_objects_to_is_told() {
    let (state, _) = change("taken", true);
    let (state, _) = id_step(state, id("old"));
    let (state, action) = id_step(state, IdEvent::Answer { err: "Not available".to_string() });
    assert!(matches!(state, IdState::Done));
    assert_eq!(reply(action), "{\"error\":\"Not available\",\"id\":7,\"ok\":false}");
}
