use rss_reader::audio_control::{
    plan, AudioPlayerTrait, CommandSource, PlayerAction, get_next_command, process_command, run,
};
use rss_reader::audio_player::{PlayerCommand, PlayerError};
use rss_reader::episodes::Episode;
use rss_reader::keyboard_controls::{Cooldown, CooldownHandler};
use std::cell::RefCell;
use std::io::Cursor;
use std::rc::Rc;

// Mock AudioPlayer for testing
struct MockAudioPlayer {
    actions: Rc<RefCell<Vec<String>>>,
}

impl AudioPlayerTrait for MockAudioPlayer {
    fn play(&mut self, episode: &Episode) -> Result<(), PlayerError> {
        self.actions.borrow_mut().push(format!("play: {}", episode.title));
        Ok(())
    }

    fn pause(&mut self) -> Result<(), PlayerError> {
        self.actions.borrow_mut().push("pause".to_string());
        Ok(())
    }

    fn resume(&mut self) -> Result<(), PlayerError> {
        self.actions.borrow_mut().push("resume".to_string());
        Ok(())
    }

    fn stop(&mut self) -> Result<(), PlayerError> {
        self.actions.borrow_mut().push("stop".to_string());
        Ok(())
    }

    fn skip(&mut self, seconds: i64) -> Result<(), PlayerError> {
        self.actions.borrow_mut().push(format!("skip: {}", seconds));
        Ok(())
    }

    fn adjust_volume(&mut self, step_centi: i32) -> Result<(), PlayerError> {
        self.actions.borrow_mut().push(format!("volume: {}", step_centi));
        Ok(())
    }
}

impl MockAudioPlayer {
    fn new() -> Self {
        Self { actions: Rc::new(RefCell::new(Vec::new())) }
    }

    fn get_actions(&self) -> Vec<String> {
        self.actions.borrow().clone()
    }
}

// A scripted command source: hands out the commands in order, then Quit.
struct ScriptedSource {
    commands: Vec<PlayerCommand>,
    next: usize,
}

impl CommandSource for ScriptedSource {
    fn next_command(&mut self, _cooldown_handler: &mut CooldownHandler) -> PlayerCommand {
        let command = self.commands.get(self.next).copied().unwrap_or(PlayerCommand::Quit);
        self.next += 1;
        command
    }
}

#[test]
fn test_run_with_mock_input() {
    let mut player = MockAudioPlayer::new();

    let mut source = ScriptedSource {
        commands: vec![
            PlayerCommand::Pause,
            PlayerCommand::SkipForward(10),
            PlayerCommand::SkipBackward(10),
            PlayerCommand::VolumeUp(10),
            PlayerCommand::VolumeDown(10),
            PlayerCommand::Quit,
        ],
        next: 0,
    };

    let result = run(&mut player, &mut source);

    // Check the result
    assert!(result.is_ok());

    // Verify the sequence of actions based on input
    let expected_actions = vec!["pause", "skip: 10", "skip: -10", "volume: 10", "volume: -10"];

    assert_eq!(player.get_actions(), expected_actions);
}

#[test]
fn test_get_next_command() {
    let test_cases = vec![
        ("p\n", PlayerCommand::Pause),
        ("q\n", PlayerCommand::Quit),
        ("+\n", PlayerCommand::VolumeUp(10)),
        ("-\n", PlayerCommand::VolumeDown(10)),
        ("f\n", PlayerCommand::SkipForward(10)),
        ("b\n", PlayerCommand::SkipBackward(10)),
    ];

    for (input, expected_command) in test_cases {
        let mut input_cursor = Cursor::new(input.as_bytes());

        // A cooldown handler that always allows commands
        struct NoCooldownHandler;
        impl Cooldown for NoCooldownHandler {
            fn update_command_time(&mut self) {}
            fn is_cooldown_active(&self, _cooldown_ms: u64) -> bool {
                false
            }
        }
        let mut cooldown_handler = NoCooldownHandler;

        let command = get_next_command(&mut cooldown_handler, &mut input_cursor);

        assert_eq!(command, expected_command, "Failed for input: {}", input.trim());
    }
}

#[test]
fn test_process_command() {
    let test_cases = vec![
        (PlayerCommand::Pause, "pause"),
        (PlayerCommand::Play, "resume"),
        (PlayerCommand::Stop, "stop"),
        (PlayerCommand::SkipForward(10), "skip: 10"),
        (PlayerCommand::SkipBackward(10), "skip: -10"),
        (PlayerCommand::VolumeUp(10), "volume: 10"),
        (PlayerCommand::VolumeDown(10), "volume: -10"),
    ];

    for (command, expected_action) in test_cases {
        let mut player = MockAudioPlayer::new();

        // Process the command
        let result = process_command(&mut player, command.clone());

        // Check the result
        assert!(result.is_ok(), "Command processing failed: {:?}", command);

        // Check the action
        assert_eq!(
            player.get_actions(),
            vec![expected_action],
            "Failed for command: {:?}",
            command
        );
    }
}

#[test]
fn test_plan_dispatch_table() {
    assert_eq!(plan(PlayerCommand::Pause), PlayerAction::Pause);
    assert_eq!(plan(PlayerCommand::Play), PlayerAction::Resume);
    assert_eq!(plan(PlayerCommand::Stop), PlayerAction::Stop);
    assert_eq!(plan(PlayerCommand::SkipForward(10)), PlayerAction::Skip(10));
    assert_eq!(plan(PlayerCommand::SkipBackward(10)), PlayerAction::Skip(-10));
    assert_eq!(plan(PlayerCommand::VolumeUp(10)), PlayerAction::AdjustVolume(10));
    assert_eq!(plan(PlayerCommand::VolumeDown(10)), PlayerAction::AdjustVolume(-10));
    assert_eq!(plan(PlayerCommand::Quit), PlayerAction::Nothing);
    assert_eq!(plan(PlayerCommand::Ignore), PlayerAction::Nothing);
    // A magnitude whose negation is unrepresentable saturates.
    assert_eq!(plan(PlayerCommand::SkipBackward(i64::MIN)), PlayerAction::Skip(i64::MAX));
    assert_eq!(plan(PlayerCommand::VolumeDown(i32::MIN)), PlayerAction::AdjustVolume(i32::MAX));
}

#[test]
fn test_process_command_ignore() {
    let mut player = MockAudioPlayer::new();

    // Test Ignore and Quit commands do nothing
    let ignore_commands = vec![PlayerCommand::Ignore, PlayerCommand::Quit];

    for command in ignore_commands {
        let result = process_command(&mut player, command.clone());

        // Check the result
        assert!(result.is_ok(), "Command processing failed: {:?}", command);

        // Check no actions were taken
        assert!(
            player.get_actions().is_empty(),
            "Unexpected actions for command: {:?}",
            command
        );
    }
}
