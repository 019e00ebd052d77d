use rss_reader::PlayerCommand;
use rss_reader::keyboard_controls::{decide_input, Cooldown, CooldownHandler, KeyboardControls};
use std::io::Cursor;

// Mock Cooldown for testing
#[derive(Default)]
struct MockCooldown {
    is_cooldown_active: bool,
}

impl Cooldown for MockCooldown {
    fn update_command_time(&mut self) {}

    fn is_cooldown_active(&self, _cooldown_ms: u64) -> bool {
        self.is_cooldown_active
    }
}

pub struct TestInputReader {
    reader: Cursor<String>,
}

impl TestInputReader {
    pub fn new(input: &str) -> Self {
        Self { reader: Cursor::new(input.to_owned()) }
    }

    pub fn get_reader(&mut self) -> &mut Cursor<String> {
        &mut self.reader
    }
}

#[test]
fn test_translate_basic_commands() {
    assert_eq!(KeyboardControls::translate_command("p"), PlayerCommand::Pause);
    assert_eq!(KeyboardControls::translate_command("q"), PlayerCommand::Quit);
}

#[test]
fn test_translate_skip_commands() {
    assert_eq!(KeyboardControls::translate_command("f"), PlayerCommand::SkipForward(10));
    assert_eq!(KeyboardControls::translate_command("b"), PlayerCommand::SkipBackward(10));
}

#[test]
fn test_translate_volume_commands() {
    assert_eq!(KeyboardControls::translate_command("+"), PlayerCommand::VolumeUp(10));
    assert_eq!(KeyboardControls::translate_command("-"), PlayerCommand::VolumeDown(10));
}

#[test]
fn test_translate_unknown_commands() {
    assert_eq!(KeyboardControls::translate_command("x"), PlayerCommand::Ignore);
    assert_eq!(KeyboardControls::translate_command(""), PlayerCommand::Ignore);
    assert_eq!(KeyboardControls::translate_command(" "), PlayerCommand::Ignore);
}

#[test]
fn test_get_user_input_cooldown_not_elapsed() {
    let mut cooldown_handler = MockCooldown { is_cooldown_active: true };
    let mut input_reader = TestInputReader::new("p\n");
    let result = KeyboardControls::get_user_input(&mut cooldown_handler, input_reader.get_reader());

    assert_eq!(result, PlayerCommand::Ignore);
}

#[test]
fn test_get_user_input_cooldown_elapsed() {
    let mut cooldown_handler = MockCooldown { is_cooldown_active: false };
    let mut input_reader = TestInputReader::new("p\n");

    let result = KeyboardControls::get_user_input(&mut cooldown_handler, input_reader.get_reader());

    assert_eq!(result, PlayerCommand::Pause);
}

#[test]
fn test_get_user_input_read_error_is_ignored() {
    let mut cooldown_handler = MockCooldown { is_cooldown_active: false };
    // Invalid UTF-8 makes read_line fail; the error is absorbed as Ignore,
    // not treated as end of input.
    let mut bad_bytes = Cursor::new(vec![0xffu8, 0xfeu8, b'\n']);

    let result = KeyboardControls::get_user_input(&mut cooldown_handler, &mut bad_bytes);

    assert_eq!(result, PlayerCommand::Ignore);
}

#[test]
fn test_get_user_input_end_of_input_quits() {
    let mut cooldown_handler = MockCooldown { is_cooldown_active: false };
    let mut input_reader = TestInputReader::new("");

    let result = KeyboardControls::get_user_input(&mut cooldown_handler, input_reader.get_reader());

    assert_eq!(result, PlayerCommand::Quit);
}

#[test]
fn test_decide_input_table() {
    // A failed read is absorbed: Ignore, no governor refresh.
    assert_eq!(decide_input(None, true), (PlayerCommand::Ignore, false));
    assert_eq!(decide_input(None, false), (PlayerCommand::Ignore, false));
    // Zero bytes read is end of input: Quit, regardless of the window.
    assert_eq!(decide_input(Some((0, String::new())), true), (PlayerCommand::Quit, false));
    assert_eq!(decide_input(Some((0, String::new())), false), (PlayerCommand::Quit, false));
    // A closed window ignores every line, the Quit token included.
    assert_eq!(decide_input(Some((2, "p\n".to_string())), false), (PlayerCommand::Ignore, false));
    assert_eq!(decide_input(Some((2, "q\n".to_string())), false), (PlayerCommand::Ignore, false));
    // An open window translates; only a recognized command records.
    assert_eq!(decide_input(Some((2, "p\n".to_string())), true), (PlayerCommand::Pause, true));
    assert_eq!(decide_input(Some((2, "q\n".to_string())), true), (PlayerCommand::Quit, true));
    assert_eq!(
        decide_input(Some((2, "f\n".to_string())), true),
        (PlayerCommand::SkipForward(10), true)
    );
    assert_eq!(decide_input(Some((4, "zzz\n".to_string())), true), (PlayerCommand::Ignore, false));
    assert_eq!(decide_input(Some((3, "  \n".to_string())), true), (PlayerCommand::Ignore, false));
}

#[test]
fn test_governor_window() {
    let mut handler = CooldownHandler::new();

    // A command accepted at t=0 closes the window until t=250.
    handler.record_accepted(0);
    assert!(!handler.is_acceptable(100, 250));
    assert!(handler.is_acceptable(250, 250));
    assert!(handler.is_acceptable(260, 250));

    // Accepting again moves the deadline.
    handler.record_accepted(260);
    assert!(!handler.is_acceptable(400, 250));
    assert!(handler.is_acceptable(510, 250));
}

#[test]
fn test_governor_rejects_before_deadline() {
    let mut handler = CooldownHandler::new();
    handler.record_accepted(1000);
    // Strictly before lastAccepted + window: rejected.
    assert!(!handler.is_acceptable(1249, 250));
    // At the deadline exactly: accepted.
    assert!(handler.is_acceptable(1250, 250));
}
