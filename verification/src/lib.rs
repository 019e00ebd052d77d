//! A small podcast client library: feed-list handling, episode metadata,
//! a keyboard command translator with a cooldown governor, and the playback
//! session controller that tracks position, duration and volume.

pub mod audio_control;
pub mod audio_player;
pub mod clock;
pub mod episodes;
pub mod keyboard_controls;
pub mod podcast_manager;
pub mod text;

pub use audio_player::AudioPlayer;
pub use audio_player::PlayerCommand;
pub use episodes::Episode;
pub use episodes::pretty_print;
pub use keyboard_controls::Cooldown;
pub use keyboard_controls::CooldownHandler;
pub use keyboard_controls::KeyboardControls;
pub use podcast_manager::PodcastManager;
