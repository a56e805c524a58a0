//! A song-request bot's playback core: the queue of requested tracks, the
//! admission rules that guard it, and the scheduler that decides what the
//! audio device plays next.

mod admission;
mod chat;
mod command;
mod config;
mod emotes;
mod engine;
pub mod laws;
mod queue;
mod parse;
mod system;
mod text;
mod themes;
mod track;
mod words;

pub use admission::{
    check_duplicate, check_duration, check_limits, check_subscriber, debit, refund, AddTrackError,
    LastRequest, Policy, ProviderPolicy,
};
pub use chat::{
    command_error_message, current_message, volume_message, length_message, malformed_message, promoted_message, removed_message,
    when_message,
    added_message, display_songs, feedback_message, parse_queue_position, refusal_message,
    request_help, volume_argument, PositionError,
};
pub use command::{parse_song_command, SongCommand, SongCommandError};
pub use config::{
    default_cooldown, default_max_queue_length, default_max_songs_per_user, default_true, Config,
    Cooldown, Module, ModuleConfig,
};
pub use emotes::{Badge, Emote, Size, Url, Urls, ValidateToken};
pub use engine::{Command, Effect, Event, Loaded, Player, PlayerEvent, Sidelined};
pub use parse::{parse_track_id, route_request, search_result, ParseTrackIdError, RequestRoute};
pub use queue::Queue;
pub use system::{setup, System, SystemError};
pub use text::{compact_time, human_artists};
pub use themes::{lookup_theme, PlayThemeError, Theme};
pub use track::{Item, ItemData, NameDecodeError, Origin, Provider, TrackId, TrackMeta};
pub use words::Words;
