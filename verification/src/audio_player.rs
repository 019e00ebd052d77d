use vstd::prelude::*;

use crate::episodes::Episode;
use crate::text::lower_matches;
use crate::text::eq_ignore_ascii_case;

verus! {

/// A semantic playback command, produced by the keyboard translator and
/// consumed by the control loop. Skip magnitudes are in whole seconds;
/// volume magnitudes are in hundredths of the renderer's volume unit, so
/// that a step of 10 stands for a tenth of full volume.
#[derive(Clone, Copy, Debug, PartialEq, Eq, Structural)]
pub enum PlayerCommand {
    Play,
    Pause,
    Stop,
    SkipForward(i64),
    SkipBackward(i64),
    VolumeUp(i32),
    VolumeDown(i32),
    Quit,
    Ignore,
}

/// Why a playback operation failed. Operations on an absent session are
/// deliberately not errors: they are absorbed as no-ops.
#[derive(Clone, Copy, Debug, PartialEq, Eq, Structural)]
pub enum PlayerError {
    /// The selected episode carries no audio URL; nothing was fetched.
    MissingAudioUrl,
    /// The audio resource could not be downloaded.
    FetchFailed,
    /// The declared content type is not a playable audio format.
    UnsupportedFormat,
    /// The downloaded bytes could not be decoded.
    DecodeFailed,
    /// Neither an in-place seek nor a rebuilt stream could reach the target.
    SeekUnsupported,
    /// A position change was completed with nothing loaded.
    NoActiveSession,
}

/// Volume of a freshly created render sink, in hundredths: full volume.
pub const DEFAULT_VOLUME_CENTI: u32 = 100;

/// The playback session as the contracts see it: whether a render sink is
/// live, its pause and volume state, the cached audio bytes kept for
/// seeking, and the commanded position against the known duration.
pub struct SessionView {
    pub has_sink: bool,
    pub paused: bool,
    pub volume_centi: u32,
    pub cached: Option<Seq<u8>>,
    pub position_ms: u64,
    pub duration_ms: Option<u64>,
    pub playing: bool,
}

/// The session invariant: no playing without a sink, no sink without the
/// cached bytes that a later seek would need, and the position never past
/// a known duration.
pub open spec fn wf_view(v: SessionView) -> bool {
    &&& !v.has_sink ==> !v.playing
    &&& v.has_sink ==> v.cached is Some
    &&& v.duration_ms matches Some(d) ==> v.position_ms <= d
}

/// The view after all session content is released: no sink, no cached
/// bytes, position zero, duration unknown, not playing. Volume survives
/// only as the remembered setting for the next sink.
pub open spec fn cleared(v: SessionView) -> SessionView {
    SessionView {
        has_sink: false,
        paused: false,
        cached: None,
        position_ms: 0,
        duration_ms: None,
        playing: false,
        ..v
    }
}

/// A session holds no content exactly when clearing it changes nothing.
pub open spec fn is_empty_view(v: SessionView) -> bool {
    v == cleared(v)
}

/// The view of a freshly constructed controller.
pub open spec fn empty_view() -> SessionView {
    SessionView {
        has_sink: false,
        paused: false,
        volume_centi: DEFAULT_VOLUME_CENTI,
        cached: None,
        position_ms: 0,
        duration_ms: None,
        playing: false,
    }
}

/// Stopping is idempotent: clearing a session twice leaves exactly the
/// state that clearing it once leaves.
pub proof fn lemma_stop_idempotent(v: SessionView)
    ensures
        cleared(cleared(v)) == cleared(v),
{
}

/// Where a skip from `pos_ms` by `delta_seconds` lands: the raw target
/// clamped below by zero and above by the duration when it is known, and
/// by the largest representable position when it is not.
pub open spec fn clamped_target(pos_ms: u64, duration_ms: Option<u64>, delta_seconds: int) -> int {
    let raw = pos_ms as int + delta_seconds * 1000;
    let upper = match duration_ms {
        Some(d) => d as int,
        None => u64::MAX as int,
    };
    if raw < 0 {
        0
    } else if raw > upper {
        upper
    } else {
        raw
    }
}

/// A clamped skip target never leaves the track: it is at least zero and,
/// when the duration is known, at most the duration.
pub proof fn lemma_skip_target_in_bounds(pos_ms: u64, duration_ms: Option<u64>, delta_seconds: int)
    requires
        duration_ms matches Some(d) ==> pos_ms <= d,
    ensures
        0 <= clamped_target(pos_ms, duration_ms, delta_seconds),
        duration_ms matches Some(d) ==> clamped_target(pos_ms, duration_ms, delta_seconds)
            <= d as int,
{
}

/// Where a volume move from `vol` by `step` lands: clamped below by zero,
/// and above by the largest representable setting.
pub open spec fn clamped_volume(vol: int, step: int) -> int {
    let raw = vol + step;
    if raw < 0 {
        0
    } else if raw > u32::MAX as int {
        u32::MAX as int
    } else {
        raw
    }
}

/// The volume after `n` repeated downward moves by `x`.
pub open spec fn volume_after_downs(vol: int, x: int, n: nat) -> int
    decreases n,
{
    if n == 0 {
        vol
    } else {
        clamped_volume(volume_after_downs(vol, x, (n - 1) as nat), -x)
    }
}

/// Repeated downward volume moves floor at exactly zero: after `n` moves
/// down by `x` the volume is `vol - n * x` until that would go negative,
/// and exactly zero from then on — never below.
pub proof fn lemma_volume_repeated_down(vol: u32, x: int, n: nat)
    requires
        x >= 0,
    ensures
        volume_after_downs(vol as int, x, n) == if vol as int - n * x < 0 {
            0
        } else {
            vol as int - n * x
        },
        volume_after_downs(vol as int, x, n) >= 0,
    decreases n,
{
    if n > 0 {
        lemma_volume_repeated_down(vol, x, (n - 1) as nat);
        assert(n * x == (n - 1) * x + x) by (nonlinear_arith);
        assert((n - 1) * x >= 0) by (nonlinear_arith)
            requires
                x >= 0,
                n >= 1,
        ;
    }
}

/// Repeated downward moves converge to exactly zero: once `n * x` reaches
/// the starting volume, the volume is zero and stays zero.
pub proof fn lemma_volume_down_converges(vol: u32, x: int, n: nat)
    requires
        x >= 1,
        n * x >= vol as int,
    ensures
        volume_after_downs(vol as int, x, n) == 0,
{
    lemma_volume_repeated_down(vol, x, n);
    if vol as int - n * x >= 0 {
        assert(vol as int == n * x);
    }
}

/// The playable content types: the formats the decoding library handles,
/// compared to the declared content type without regard to ASCII case.
pub open spec fn is_supported_format_spec(ct: Seq<char>) -> bool {
    ||| lower_matches(ct, "audio/mpeg"@)
    ||| lower_matches(ct, "audio/mp3"@)
    ||| lower_matches(ct, "audio/ogg"@)
    ||| lower_matches(ct, "audio/wav"@)
    ||| lower_matches(ct, "audio/x-wav"@)
    ||| lower_matches(ct, "audio/wave"@)
    ||| lower_matches(ct, "audio/webm"@)
    ||| lower_matches(ct, "audio/aac"@)
    ||| lower_matches(ct, "audio/flac"@)
    ||| lower_matches(ct, "audio/x-flac"@)
}

pub fn is_supported_format(content_type: &str) -> (supported: bool)
    ensures
        supported == is_supported_format_spec(content_type@),
{
    eq_ignore_ascii_case(content_type, "audio/mpeg") || eq_ignore_ascii_case(
        content_type,
        "audio/mp3",
    ) || eq_ignore_ascii_case(content_type, "audio/ogg") || eq_ignore_ascii_case(
        content_type,
        "audio/wav",
    ) || eq_ignore_ascii_case(content_type, "audio/x-wav") || eq_ignore_ascii_case(
        content_type,
        "audio/wave",
    ) || eq_ignore_ascii_case(content_type, "audio/webm") || eq_ignore_ascii_case(
        content_type,
        "audio/aac",
    ) || eq_ignore_ascii_case(content_type, "audio/flac") || eq_ignore_ascii_case(
        content_type,
        "audio/x-flac",
    )
}

/// The playback session controller. It owns the session state that the
/// command thread mutates and the renderer reads: whether a sink is live
/// and paused, its volume, the cached audio bytes kept for seeking, and
/// the commanded position against the known duration. The render chain
/// itself is an outside handle owned by the embedding program, which keeps
/// it in step with this state.
pub struct AudioPlayer {
    has_sink: bool,
    paused: bool,
    volume_centi: u32,
    cached: Option<Vec<u8>>,
    position_ms: u64,
    duration_ms: Option<u64>,
    playing: bool,
}

impl View for AudioPlayer {
    type V = SessionView;

    closed spec fn view(&self) -> SessionView {
        SessionView {
            has_sink: self.has_sink,
            paused: self.paused,
            volume_centi: self.volume_centi,
            cached: match self.cached {
                Some(b) => Some(b@),
                None => None,
            },
            position_ms: self.position_ms,
            duration_ms: self.duration_ms,
            playing: self.playing,
        }
    }
}

impl AudioPlayer {
    pub open spec fn wf(&self) -> bool {
        wf_view(self@)
    }

    /// A fresh controller: empty session, full volume remembered.
    pub fn new() -> (player: AudioPlayer)
        ensures
            player.wf(),
            player@ == empty_view(),
    {
        AudioPlayer {
            has_sink: false,
            paused: false,
            volume_centi: DEFAULT_VOLUME_CENTI,
            cached: None,
            position_ms: 0,
            duration_ms: None,
            playing: false,
        }
    }

    /// Begins loading an episode: any existing session content is released
    /// first, then the audio URL is handed back for fetching. An episode
    /// without an audio URL fails with MissingAudioUrl before anything is
    /// fetched, and the controller stays empty.
    pub fn play_request(&mut self, episode: &Episode) -> (r: Result<String, PlayerError>)
        ensures
            final(self).wf(),
            final(self)@ == cleared(old(self)@),
            episode.audio_url is None <==> r is Err,
            episode.audio_url is None ==> r == Err::<String, PlayerError>(
                PlayerError::MissingAudioUrl,
            ),
            episode.audio_url matches Some(u) ==> (r matches Ok(url) && url@ == u@),
    {
        self.release_content();
        match &episode.audio_url {
            Some(url) => Ok(url.clone()),
            None => Err(PlayerError::MissingAudioUrl),
        }
    }

    /// Takes the outcome of the download that followed a `play_request`:
    /// a failed transfer is FetchFailed, an unplayable declared content
    /// type is UnsupportedFormat, and otherwise the bytes are cached so
    /// that later seeks can rebuild the stream without refetching.
    pub fn accept_download(&mut self, content_type: &str, body: Option<Vec<u8>>) -> (r: Result<
        (),
        PlayerError,
    >)
        requires
            old(self).wf(),
            is_empty_view(old(self)@),
        ensures
            final(self).wf(),
            body is None ==> r == Err::<(), PlayerError>(PlayerError::FetchFailed) && final(self)@
                == old(self)@,
            body is Some && !is_supported_format_spec(content_type@) ==> r == Err::<
                (),
                PlayerError,
            >(PlayerError::UnsupportedFormat) && final(self)@ == old(self)@,
            body matches Some(b) ==> (is_supported_format_spec(content_type@) ==> r == Ok::<
                (),
                PlayerError,
            >(()) && final(self)@ == (SessionView { cached: Some(b@), ..old(self)@ })),
    {
        match body {
            None => Err(PlayerError::FetchFailed),
            Some(bytes) => {
                if !is_supported_format(content_type) {
                    Err(PlayerError::UnsupportedFormat)
                } else {
                    self.cached = Some(bytes);
                    Ok(())
                }
            },
        }
    }

    /// Takes the outcome of decoding the cached bytes: on failure the
    /// session is released and DecodeFailed reported; on success a fresh
    /// sink at full volume starts playing from position zero, with the
    /// duration as the decoder exposed it (decoders may expose none).
    pub fn accept_decode(&mut self, decoded_ok: bool, duration_ms: Option<u64>) -> (r: Result<
        (),
        PlayerError,
    >)
        requires
            old(self).wf(),
            old(self)@.cached is Some,
            !old(self)@.has_sink,
        ensures
            final(self).wf(),
            !decoded_ok ==> r == Err::<(), PlayerError>(PlayerError::DecodeFailed) && final(self)@
                == cleared(old(self)@),
            decoded_ok ==> r == Ok::<(), PlayerError>(()) && final(self)@ == (SessionView {
                has_sink: true,
                paused: false,
                volume_centi: DEFAULT_VOLUME_CENTI,
                position_ms: 0,
                duration_ms: duration_ms,
                playing: true,
                ..old(self)@
            }),
    {
        if !decoded_ok {
            self.release_content();
            Err(PlayerError::DecodeFailed)
        } else {
            self.has_sink = true;
            self.paused = false;
            self.volume_centi = DEFAULT_VOLUME_CENTI;
            self.position_ms = 0;
            self.duration_ms = duration_ms;
            self.playing = true;
            Ok(())
        }
    }

    /// Sets the sink playing again; a no-op when nothing is loaded.
    pub fn resume(&mut self) -> (r: Result<(), PlayerError>)
        requires
            old(self).wf(),
        ensures
            final(self).wf(),
            r == Ok::<(), PlayerError>(()),
            old(self)@.has_sink ==> final(self)@ == (SessionView { paused: false, ..old(self)@ }),
            !old(self)@.has_sink ==> final(self)@ == old(self)@,
    {
        if self.has_sink {
            self.paused = false;
        }
        Ok(())
    }

    /// Toggles the sink between paused and playing; a no-op when nothing
    /// is loaded.
    pub fn pause(&mut self) -> (r: Result<(), PlayerError>)
        requires
            old(self).wf(),
        ensures
            final(self).wf(),
            r == Ok::<(), PlayerError>(()),
            old(self)@.has_sink ==> final(self)@ == (SessionView {
                paused: !old(self)@.paused,
                ..old(self)@
            }),
            !old(self)@.has_sink ==> final(self)@ == old(self)@,
    {
        if self.has_sink {
            self.paused = !self.paused;
        }
        Ok(())
    }

    /// Releases the sink and the cached bytes and leaves the session
    /// empty; stopping an already empty session changes nothing further.
    pub fn stop(&mut self) -> (r: Result<(), PlayerError>)
        ensures
            final(self).wf(),
            final(self)@ == cleared(old(self)@),
            r == Ok::<(), PlayerError>(()),
    {
        self.release_content();
        Ok(())
    }

    /// Where a skip by `seconds` (negative for backward) must land: the
    /// current position moved and clamped to the track, or None when
    /// nothing is loaded and the skip is absorbed as a no-op.
    pub fn skip_target(&self, seconds: i64) -> (target: Option<u64>)
        requires
            self.wf(),
        ensures
            self@.has_sink ==> target == Some(
                clamped_target(self@.position_ms, self@.duration_ms, seconds as int) as u64,
            ),
            !self@.has_sink ==> target is None,
    {
        if !self.has_sink {
            return None;
        }
        let upper: u64 = match self.duration_ms {
            Some(d) => d,
            None => u64::MAX,
        };
        if seconds >= 0 {
            let mag = seconds as u64;
            let delta: u64 = if mag > u64::MAX / 1000 {
                u64::MAX
            } else {
                proof {
                    assert(mag * 1000 <= u64::MAX) by (nonlinear_arith)
                        requires
                            0 <= mag as int <= u64::MAX as int / 1000,
                    ;
                }
                mag * 1000
            };
            proof {
                if mag > u64::MAX as int / 1000 {
                    assert(mag * 1000 > u64::MAX) by (nonlinear_arith)
                        requires
                            mag as int > u64::MAX as int / 1000,
                    ;
                }
            }
            let raw: u64 = if self.position_ms > u64::MAX - delta {
                u64::MAX
            } else {
                self.position_ms + delta
            };
            if raw > upper {
                Some(upper)
            } else {
                Some(raw)
            }
        } else {
            let mag: u64 = if seconds == i64::MIN {
                9223372036854775808u64
            } else {
                (-seconds) as u64
            };
            let delta: u64 = if mag > u64::MAX / 1000 {
                u64::MAX
            } else {
                proof {
                    assert(mag * 1000 <= u64::MAX) by (nonlinear_arith)
                        requires
                            0 <= mag as int <= u64::MAX as int / 1000,
                    ;
                }
                mag * 1000
            };
            proof {
                if mag > u64::MAX as int / 1000 {
                    assert(mag * 1000 > u64::MAX) by (nonlinear_arith)
                        requires
                            mag as int > u64::MAX as int / 1000,
                    ;
                }
            }
            if self.position_ms <= delta {
                Some(0)
            } else {
                Some(self.position_ms - delta)
            }
        }
    }

    /// Takes the outcome of the attempt to reach `target_ms` (in-place
    /// seek, or reconstruction from the cached bytes). Only success moves
    /// the commanded position; a failed attempt leaves it unchanged and
    /// reports SeekUnsupported. With nothing loaded the session is
    /// untouched and NoActiveSession reported.
    pub fn complete_seek(&mut self, target_ms: u64, succeeded: bool) -> (r: Result<
        (),
        PlayerError,
    >)
        requires
            old(self).wf(),
            old(self)@.duration_ms matches Some(d) ==> target_ms <= d,
        ensures
            final(self).wf(),
            !old(self)@.has_sink ==> r == Err::<(), PlayerError>(PlayerError::NoActiveSession)
                && final(self)@ == old(self)@,
            old(self)@.has_sink && succeeded ==> r == Ok::<(), PlayerError>(()) && final(self)@
                == (SessionView { position_ms: target_ms, ..old(self)@ }),
            old(self)@.has_sink && !succeeded ==> r == Err::<(), PlayerError>(
                PlayerError::SeekUnsupported,
            ) && final(self)@ == old(self)@,
    {
        if !self.has_sink {
            Err(PlayerError::NoActiveSession)
        } else if succeeded {
            self.position_ms = target_ms;
            Ok(())
        } else {
            Err(PlayerError::SeekUnsupported)
        }
    }

    /// Moves the sink volume by `step_centi` hundredths (negative for
    /// down), clamped so that it never goes below zero; a no-op when
    /// nothing is loaded.
    pub fn adjust_volume(&mut self, step_centi: i32) -> (r: Result<(), PlayerError>)
        requires
            old(self).wf(),
        ensures
            final(self).wf(),
            r == Ok::<(), PlayerError>(()),
            !old(self)@.has_sink ==> final(self)@ == old(self)@,
            old(self)@.has_sink ==> final(self)@ == (SessionView {
                volume_centi: clamped_volume(
                    old(self)@.volume_centi as int,
                    step_centi as int,
                ) as u32,
                ..old(self)@
            }),
    {
        if self.has_sink {
            if step_centi >= 0 {
                let step = step_centi as u32;
                if self.volume_centi > u32::MAX - step {
                    self.volume_centi = u32::MAX;
                } else {
                    self.volume_centi = self.volume_centi + step;
                }
            } else {
                let mag: u32 = if step_centi == i32::MIN {
                    2147483648u32
                } else {
                    (-step_centi) as u32
                };
                if self.volume_centi <= mag {
                    self.volume_centi = 0;
                } else {
                    self.volume_centi = self.volume_centi - mag;
                }
            }
        }
        Ok(())
    }

    /// The position last commanded, in milliseconds.
    pub fn current_position(&self) -> (pos: u64)
        ensures
            pos == self@.position_ms,
    {
        self.position_ms
    }

    /// The decoded duration in milliseconds, when the decoder exposed one.
    pub fn duration(&self) -> (dur: Option<u64>)
        ensures
            dur == self@.duration_ms,
    {
        self.duration_ms
    }

    /// Whether playback was most recently started rather than stopped.
    pub fn is_playing(&self) -> (playing: bool)
        ensures
            playing == self@.playing,
    {
        self.playing
    }

    /// Whether a render sink is live: the sole authority for "loaded".
    pub fn has_active_sink(&self) -> (loaded: bool)
        ensures
            loaded == self@.has_sink,
    {
        self.has_sink
    }

    /// Whether the live sink is paused.
    pub fn is_paused(&self) -> (paused: bool)
        ensures
            paused == self@.paused,
    {
        self.paused
    }

    /// The sink volume in hundredths.
    pub fn volume_centi(&self) -> (vol: u32)
        ensures
            vol == self@.volume_centi,
    {
        self.volume_centi
    }

    /// The cached audio bytes kept for seek reconstruction.
    pub fn cached_audio(&self) -> (bytes: &Option<Vec<u8>>)
        ensures
            bytes is Some <==> self@.cached is Some,
            bytes matches Some(b) ==> self@.cached == Some(b@),
    {
        &self.cached
    }

    /// Releases sink, cached bytes, position and duration.
    fn release_content(&mut self)
        ensures
            final(self).wf(),
            final(self)@ == cleared(old(self)@),
    {
        self.has_sink = false;
        self.paused = false;
        self.cached = None;
        self.position_ms = 0;
        self.duration_ms = None;
        self.playing = false;
    }
}

} // verus!
