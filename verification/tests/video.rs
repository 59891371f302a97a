use headless_sdk::action::{Action, ImageQuality};
use headless_sdk::video::{handle_set_fps, handle_set_quality, handle_set_resolution};
use headless_sdk::command::Command;

fn command(word: &str) -> Command {
    Command {
        id: 5,
        cmd: word.to_string(),
        peer_id: String::new(),
        password: String::new(),
        action: String::new(),
        x: 0,
        y: 0,
        button: String::new(),
        key: String::new(),
        keys_seq: Vec::new(),
        check_server: false,
        quality: String::new(),
        value: 0,
        fps: 0,
        display: 0,
        width: 0,
        height: 0,
    }
}

const OK: &str = "{\"id\":5,\"ok\":true}";
const NOT_CONNECTED: &str = "{\"error\":\"not connected\",\"id\":5,\"ok\":false}";

fn quality(word: &str, value: i32) -> (Vec<Action>, String) {
    let mut cmd = command("set_quality");
    cmd.quality = word.to_string();
    cmd.value = value;
    let outcome = handle_set_quality(true, &cmd);
    (outcome.actions, outcome.reply)
}

#[test]
fn quality_presets() {
    for (word, quality_of) in [
        ("", ImageQuality::Balanced),
        ("balanced", ImageQuality::Balanced),
        ("best", ImageQuality::Best),
        ("low", ImageQuality::Low),
    ] {
        let preset = Action::Preset { quality: quality_of };
        assert_eq!(quality(word, 9), (vec![preset], OK.to_string()));
    }
    assert_eq!(ImageQuality::Best.name(), "best");
    assert_eq!(ImageQuality::Balanced.name(), "balanced");
    assert_eq!(ImageQuality::Low.name(), "low");
}

#[test]
fn custom_quality() {
    assert_eq!(quality("custom", 80).0, vec![Action::CustomQuality { value: 80 }]);
    assert_eq!(quality("custom", 0).0, vec![Action::CustomQuality { value: 50 }]);
    assert_eq!(quality("custom", -3).0, vec![Action::CustomQuality { value: 50 }]);
}

#[test]
fn unknown_quality_is_refused() {
    let (actions, reply) = quality("hd", 1);
    assert!(actions.is_empty());
    assert_eq!(
        reply,
        "{\"error\":\"unknown quality: hd (use best/balanced/low/custom)\",\"id\":5,\"ok\":false}"
    );
}

#[test]
fn frame_rate() {
    for (fps, sent) in [(60, 60), (1, 1), (0, 30), (-1, 30)] {
        let mut cmd = command("set_fps");
        cmd.fps = fps;
        let outcome = handle_set_fps(true, &cmd);
        assert_eq!(outcome.actions, vec![Action::Fps { fps: sent }]);
        assert_eq!(outcome.reply, OK);
    }
}

#[test]
fn resolution() {
    for (width, height, sent) in
        [(800, 600, (800, 600)), (0, 600, (1920, 600)), (800, -1, (800, 1080))]
    {
        let mut cmd = command("set_resolution");
        cmd.display = 2;
        cmd.width = width;
        cmd.height = height;
        let outcome = handle_set_resolution(true, &cmd);
        assert_eq!(
            outcome.actions,
            vec![Action::Resolution { display: 2, width: sent.0, height: sent.1 }]
        );
        assert_eq!(outcome.reply, OK);
    }
}

#[test]
fn video_commands_need_a_session() {
    for outcome in [
        handle_set_quality(false, &command("set_quality")),
        handle_set_fps(false, &command("set_fps")),
        handle_set_resolution(false, &command("set_resolution")),
    ] {
        assert!(outcome.actions.is_empty());
        assert_eq!(outcome.reply, NOT_CONNECTED);
    }
}
