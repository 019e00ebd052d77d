use vstd::prelude::*;
use vstd::string::StrSliceExecFns;

use crate::audio_player::PlayerCommand;
use crate::clock::now_millis;
use crate::text::trim_str;
use crate::text::trimmed;

verus! {

/// Minimum number of milliseconds that must pass between two accepted
/// commands; bursts of keystrokes inside this window are ignored.
pub const COOLDOWN_MILLIS: u64 = 250;

/// How far a single skip command moves the position, in seconds.
pub const SKIP_SECONDS: i64 = 10;

/// How far a single volume command moves the volume, in hundredths of the
/// renderer's volume unit (10 stands for a step of one tenth).
pub const VOLUME_STEP_CENTI: i32 = 10;

/// A command is acceptable at `now_ms` exactly when the cooldown window has
/// fully elapsed since the last accepted command.
pub open spec fn cooldown_elapsed(last_ms: u64, now_ms: u64, window_ms: u64) -> bool {
    now_ms as int >= last_ms as int + window_ms as int
}

/// Rate-limiting state: the timestamp (milliseconds) of the last accepted
/// command. It is updated only when a command is accepted.
pub trait Cooldown {
    fn update_command_time(&mut self);

    fn is_cooldown_active(&self, cooldown_ms: u64) -> bool;
}

#[derive(Clone, Copy)]
pub struct CooldownHandler {
    last_command_time_ms: u64,
}

impl CooldownHandler {
    /// Starts the governor with the current time as the last accepted
    /// moment, so that the first command is gated by a full window.
    pub fn new() -> (handler: CooldownHandler) {
        CooldownHandler { last_command_time_ms: now_millis() }
    }

    pub closed spec fn last_accepted_ms(&self) -> u64 {
        self.last_command_time_ms
    }

    /// Decides whether a command arriving at `now_ms` may be accepted:
    /// true exactly when at least `window_ms` milliseconds have elapsed
    /// since the last accepted command.
    pub fn is_acceptable(&self, now_ms: u64, window_ms: u64) -> (accepted: bool)
        ensures
            accepted == cooldown_elapsed(self.last_accepted_ms(), now_ms, window_ms),
    {
        if window_ms > u64::MAX - self.last_command_time_ms {
            false
        } else {
            now_ms >= self.last_command_time_ms + window_ms
        }
    }

    /// Records that a command was accepted at `now_ms`.
    pub fn record_accepted(&mut self, now_ms: u64)
        ensures
            final(self).last_accepted_ms() == now_ms,
    {
        self.last_command_time_ms = now_ms;
    }
}

impl Cooldown for CooldownHandler {
    /// Records the current wall-clock time as the last accepted moment.
    fn update_command_time(&mut self) {
        let now = now_millis();
        self.record_accepted(now);
    }

    /// Reads the wall clock and reports whether the window is still open;
    /// the reading itself is arbitrary, so nothing is promised here. The
    /// decision logic is specified on `is_acceptable`.
    fn is_cooldown_active(&self, cooldown_ms: u64) -> bool {
        let now = now_millis();
        !self.is_acceptable(now, cooldown_ms)
    }
}

/// What each trimmed input token means: the whole mapping of the
/// translator. Every string maps to exactly one command; anything outside
/// the six recognized tokens, the empty string included, maps to Ignore.
pub open spec fn translate_spec(s: Seq<char>) -> PlayerCommand {
    let t = trimmed(s);
    if t == seq!['p'] {
        PlayerCommand::Pause
    } else if t == seq!['q'] {
        PlayerCommand::Quit
    } else if t == seq!['+'] {
        PlayerCommand::VolumeUp(VOLUME_STEP_CENTI)
    } else if t == seq!['-'] {
        PlayerCommand::VolumeDown(VOLUME_STEP_CENTI)
    } else if t == seq!['f'] {
        PlayerCommand::SkipForward(SKIP_SECONDS)
    } else if t == seq!['b'] {
        PlayerCommand::SkipBackward(SKIP_SECONDS)
    } else {
        PlayerCommand::Ignore
    }
}

/// The commands the translator can emit: the six configured tokens' results
/// and Ignore. Skip and volume magnitudes are fixed by configuration.
pub open spec fn is_configured_command(c: PlayerCommand) -> bool {
    c == PlayerCommand::Pause || c == PlayerCommand::Quit || c == PlayerCommand::VolumeUp(
        VOLUME_STEP_CENTI,
    ) || c == PlayerCommand::VolumeDown(VOLUME_STEP_CENTI) || c == PlayerCommand::SkipForward(
        SKIP_SECONDS,
    ) || c == PlayerCommand::SkipBackward(SKIP_SECONDS) || c == PlayerCommand::Ignore
}

/// Translation is a total function into the configured command set: every
/// string maps to exactly one command, and any string whose trimmed form is
/// not one of the six recognized tokens maps to Ignore.
pub proof fn lemma_translate_total(s: Seq<char>)
    ensures
        is_configured_command(translate_spec(s)),
        trimmed(s) != seq!['p'] && trimmed(s) != seq!['q'] && trimmed(s) != seq!['+'] && trimmed(s)
            != seq!['-'] && trimmed(s) != seq!['f'] && trimmed(s) != seq!['b'] ==> translate_spec(s)
            == PlayerCommand::Ignore,
{
}

/// Reads single-token keyboard commands.
#[derive(Clone)]
pub struct KeyboardControls;

impl KeyboardControls {
    pub fn new() -> (controls: Self) {
        Self {}
    }

    /// Maps one line of input to its command: the line is trimmed and the
    /// six recognized tokens produce their commands, anything else Ignore.
    pub fn translate_command(input: &str) -> (command: PlayerCommand)
        ensures
            command == translate_spec(input@),
    {
        let t = trim_str(input);
        if t.as_str().unicode_len() == 1 {
            let c = t.as_str().get_char(0);
            proof {
                assert(t@ =~= seq![t@[0]]);
            }
            match c {
                'p' => PlayerCommand::Pause,
                'q' => PlayerCommand::Quit,
                '+' => PlayerCommand::VolumeUp(VOLUME_STEP_CENTI),
                '-' => PlayerCommand::VolumeDown(VOLUME_STEP_CENTI),
                'f' => PlayerCommand::SkipForward(SKIP_SECONDS),
                'b' => PlayerCommand::SkipBackward(SKIP_SECONDS),
                _ => PlayerCommand::Ignore,
            }
        } else {
            PlayerCommand::Ignore
        }
    }

    /// Reads one line, asks the governor for its verdict, and lets
    /// `decide_input` fix the command and whether the acceptance time is
    /// recorded. The decision on what came back is exactly
    /// `decision_spec`; only the line read and the clock are outside it.
    /// An ignored command does not touch the governor, so it cannot
    /// refresh the window.
    pub fn get_user_input<T: Cooldown, R: std::io::BufRead>(
        cooldown_handler: &mut T,
        reader: &mut R,
    ) -> (command: PlayerCommand)
        ensures
            is_configured_command(command),
            command == PlayerCommand::Ignore ==> *final(cooldown_handler) == *old(cooldown_handler),
    {
        let outcome = read_line_raw(reader);
        let window_open = !cooldown_handler.is_cooldown_active(COOLDOWN_MILLIS);
        proof {
            lemma_decision_configured(outcome, window_open);
        }
        let (command, record) = decide_input(outcome, window_open);
        if record {
            cooldown_handler.update_command_time();
        }
        command
    }
}

/// The debounce decision on one read outcome: the command the control loop
/// gets, and whether the governor's acceptance time is to be refreshed. A
/// failed read is absorbed as Ignore and never propagated; zero bytes read
/// is end of input and quits; while the window is closed every line, Quit's
/// token included, is ignored; otherwise the line translates, and exactly a
/// non-Ignore command refreshes the window.
pub open spec fn decision_spec(outcome: Option<(usize, String)>, window_open: bool) -> (
    PlayerCommand,
    bool,
) {
    match outcome {
        None => (PlayerCommand::Ignore, false),
        Some((bytes_read, line)) => if bytes_read == 0 {
            (PlayerCommand::Quit, false)
        } else if !window_open {
            (PlayerCommand::Ignore, false)
        } else {
            (translate_spec(line@), translate_spec(line@) != PlayerCommand::Ignore)
        },
    }
}

/// Decides, from the read outcome and the governor's verdict, which command
/// the control loop gets and whether to record the acceptance: exactly
/// `decision_spec`.
pub fn decide_input(outcome: Option<(usize, String)>, window_open: bool) -> (decision: (
    PlayerCommand,
    bool,
))
    ensures
        decision == decision_spec(outcome, window_open),
{
    match outcome {
        None => (PlayerCommand::Ignore, false),
        Some((bytes_read, line)) => {
            if bytes_read == 0 {
                (PlayerCommand::Quit, false)
            } else if !window_open {
                (PlayerCommand::Ignore, false)
            } else {
                let command = KeyboardControls::translate_command(line.as_str());
                let record = match command {
                    PlayerCommand::Ignore => false,
                    _ => true,
                };
                (command, record)
            }
        },
    }
}

/// Every decision yields a configured command, and asks for a governor
/// refresh only for a command that is not Ignore.
pub proof fn lemma_decision_configured(outcome: Option<(usize, String)>, window_open: bool)
    ensures
        is_configured_command(decision_spec(outcome, window_open).0),
        decision_spec(outcome, window_open).1 ==> decision_spec(outcome, window_open).0
            != PlayerCommand::Ignore,
{
    match outcome {
        Some((bytes_read, line)) => {
            lemma_translate_total(line@);
        },
        None => {
        },
    }
}

/// Relies on std::io::BufRead::read_line: hands back how many bytes were
/// read (zero exactly at end of input) together with the line they formed,
/// or None on a read error.
#[verifier::external_body]
fn read_line_raw<R: std::io::BufRead>(reader: &mut R) -> (outcome: Option<(usize, String)>) {
    let mut input = String::new();
    match reader.read_line(&mut input) {
        Ok(bytes_read) => Some((bytes_read, input)),
        Err(_) => None,
    }
}

/// The governor rejects a command issued strictly before the last accepted
/// time plus the window, and accepts one issued at or after that moment.
pub proof fn lemma_cooldown_window(last_ms: u64, now_ms: u64, window_ms: u64)
    ensures
        (now_ms as int) < last_ms as int + window_ms as int ==> !cooldown_elapsed(
            last_ms,
            now_ms,
            window_ms,
        ),
        (now_ms as int) >= last_ms as int + window_ms as int ==> cooldown_elapsed(
            last_ms,
            now_ms,
            window_ms,
        ),
{
}

} // verus!
