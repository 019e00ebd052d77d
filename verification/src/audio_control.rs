use vstd::prelude::*;

use crate::audio_player::PlayerCommand;
use crate::audio_player::PlayerError;
use crate::episodes::Episode;
use crate::keyboard_controls::Cooldown;
use crate::keyboard_controls::CooldownHandler;
use crate::keyboard_controls::KeyboardControls;
use crate::keyboard_controls::is_configured_command;

verus! {

/// What the control loop drives: a playback backend. The embedding program
/// implements it over a real audio device; tests implement it over a
/// recorder. Implementations report their own failures in their results.
pub trait AudioPlayerTrait {
    fn play(&mut self, episode: &Episode) -> Result<(), PlayerError>;

    fn resume(&mut self) -> Result<(), PlayerError>;

    fn pause(&mut self) -> Result<(), PlayerError>;

    fn stop(&mut self) -> Result<(), PlayerError>;

    fn skip(&mut self, seconds: i64) -> Result<(), PlayerError>;

    fn adjust_volume(&mut self, step_centi: i32) -> Result<(), PlayerError>;
}

/// Where the control loop's commands come from: keyboard input in the
/// embedding program, a script in tests. The source owns reading and
/// debouncing; the governor is handed in anew on every call so that all
/// commands share one deadline.
pub trait CommandSource {
    fn next_command(&mut self, cooldown_handler: &mut CooldownHandler) -> PlayerCommand;
}

/// The one player operation a command stands for. Skip carries signed
/// seconds (negative for backward), AdjustVolume signed hundredths; Quit
/// and Ignore stand for no operation at all.
#[derive(Clone, Copy, Debug, PartialEq, Eq, Structural)]
pub enum PlayerAction {
    Pause,
    Resume,
    Stop,
    Skip(i64),
    AdjustVolume(i32),
    Nothing,
}

/// The whole command-to-operation table of the dispatcher: Pause toggles,
/// Play resumes, Stop stops, the skip and volume commands move by their
/// magnitude with backward and down negated (saturating where the minimum
/// value cannot be negated), and Quit and Ignore do nothing.
pub open spec fn action_of(command: PlayerCommand) -> PlayerAction {
    match command {
        PlayerCommand::Pause => PlayerAction::Pause,
        PlayerCommand::Play => PlayerAction::Resume,
        PlayerCommand::Stop => PlayerAction::Stop,
        PlayerCommand::SkipForward(seconds) => PlayerAction::Skip(seconds),
        PlayerCommand::SkipBackward(seconds) => PlayerAction::Skip(
            if seconds == i64::MIN {
                i64::MAX
            } else {
                (-(seconds as int)) as i64
            },
        ),
        PlayerCommand::VolumeUp(step) => PlayerAction::AdjustVolume(step),
        PlayerCommand::VolumeDown(step) => PlayerAction::AdjustVolume(
            if step == i32::MIN {
                i32::MAX
            } else {
                (-(step as int)) as i32
            },
        ),
        PlayerCommand::Quit => PlayerAction::Nothing,
        PlayerCommand::Ignore => PlayerAction::Nothing,
    }
}

/// Decides which player operation a command stands for: exactly the table
/// `action_of` gives.
pub fn plan(command: PlayerCommand) -> (action: PlayerAction)
    ensures
        action == action_of(command),
{
    match command {
        PlayerCommand::Pause => PlayerAction::Pause,
        PlayerCommand::Play => PlayerAction::Resume,
        PlayerCommand::Stop => PlayerAction::Stop,
        PlayerCommand::SkipForward(seconds) => PlayerAction::Skip(seconds),
        PlayerCommand::SkipBackward(seconds) => {
            let neg: i64 = if seconds == i64::MIN {
                i64::MAX
            } else {
                -seconds
            };
            PlayerAction::Skip(neg)
        },
        PlayerCommand::VolumeUp(step) => PlayerAction::AdjustVolume(step),
        PlayerCommand::VolumeDown(step) => {
            let neg: i32 = if step == i32::MIN {
                i32::MAX
            } else {
                -step
            };
            PlayerAction::AdjustVolume(neg)
        },
        PlayerCommand::Quit => PlayerAction::Nothing,
        PlayerCommand::Ignore => PlayerAction::Nothing,
    }
}

/// Performs one planned operation on the player: each action becomes its
/// one player call, and Nothing reaches no call and leaves the player
/// untouched.
fn perform<T: AudioPlayerTrait>(player: &mut T, action: PlayerAction) -> (r: Result<
    (),
    PlayerError,
>)
    ensures
        action == PlayerAction::Nothing ==> r == Ok::<(), PlayerError>(()) && *final(player)
            == *old(player),
{
    match action {
        PlayerAction::Pause => player.pause(),
        PlayerAction::Resume => player.resume(),
        PlayerAction::Stop => player.stop(),
        PlayerAction::Skip(seconds) => player.skip(seconds),
        PlayerAction::AdjustVolume(step_centi) => player.adjust_volume(step_centi),
        PlayerAction::Nothing => Ok(()),
    }
}

/// Dispatches one command to the player: the command's planned operation,
/// exactly `action_of`, is performed, and the player's own result handed
/// back. Quit and Ignore plan nothing: they reach no player call, leave
/// the player untouched, and always succeed.
pub fn process_command<T: AudioPlayerTrait>(player: &mut T, command: PlayerCommand) -> (r: Result<
    (),
    PlayerError,
>)
    ensures
        action_of(command) == PlayerAction::Nothing ==> r == Ok::<(), PlayerError>(())
            && *final(player) == *old(player),
        command == PlayerCommand::Ignore || command == PlayerCommand::Quit ==> r == Ok::<
            (),
            PlayerError,
        >(()) && *final(player) == *old(player),
{
    let action = plan(command);
    perform(player, action)
}

/// Pulls the next debounced command from a reader. An ignored command
/// leaves the governor untouched.
pub fn get_next_command<T: Cooldown, R: std::io::BufRead>(
    cooldown_handler: &mut T,
    input: &mut R,
) -> (command: PlayerCommand)
    ensures
        is_configured_command(command),
        command == PlayerCommand::Ignore ==> *final(cooldown_handler) == *old(cooldown_handler),
{
    KeyboardControls::get_user_input(cooldown_handler, input)
}

/// The control loop: pulls commands from the source and dispatches them to
/// the player, with one owned governor shared across all iterations. It
/// ends on Quit; a failed command is the player's to report, and the loop
/// goes on accepting further commands. The loop provably terminates by
/// carrying a command budget that no interactive session can exhaust.
pub fn run<T: AudioPlayerTrait, S: CommandSource>(player: &mut T, source: &mut S) -> (r: Result<
    (),
    PlayerError,
>)
    ensures
        r == Ok::<(), PlayerError>(()),
{
    let mut cooldown_handler: CooldownHandler = CooldownHandler::new();
    let mut budget: u64 = u64::MAX;
    while budget > 0
        decreases budget,
    {
        let command = source.next_command(&mut cooldown_handler);
        match command {
            PlayerCommand::Quit => {
                return Ok(());
            },
            PlayerCommand::Ignore => {
            },
            _ => {
                let _ = process_command(player, command);
            },
        }
        budget = budget - 1;
    }
    Ok(())
}

} // verus!
