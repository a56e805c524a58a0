use vstd::prelude::*;

verus! {

/// Whether the player echoes the current song by default.
pub fn default_true() -> (r: bool)
    ensures
        r,
{
    true
}

/// The default longest queue that non-moderators may add to.
pub fn default_max_queue_length() -> (r: u32)
    ensures
        r == 30,
{
    30
}

/// The default number of queued tracks a non-moderator may have.
pub fn default_max_songs_per_user() -> (r: u32)
    ensures
        r == 2,
{
    2
}

/// Settings of the player.
#[derive(Debug)]
pub struct Config {
    pub max_queue_length: u32,
    pub max_songs_per_user: u32,
    /// Device to use with the connect player.
    pub device: Option<String>,
    /// Speaker to use with the native player.
    pub speaker: Option<String>,
    /// Playlist to fall back on; otherwise the saved songs of the user.
    pub playlist: Option<String>,
    /// Volume of the player, in percent.
    pub volume: Option<u32>,
    /// Whether to use the connect player.
    pub connect: bool,
    /// Whether to echo the current song to chat.
    pub echo_current_song: bool,
}

impl Config {
    /// The configuration with every setting at its default.
    pub fn new() -> (r: Config)
        ensures
            r.max_queue_length == 30,
            r.max_songs_per_user == 2,
            r.device is None,
            r.speaker is None,
            r.playlist is None,
            r.volume is None,
            !r.connect,
            r.echo_current_song,
    {
        Config {
            max_queue_length: default_max_queue_length(),
            max_songs_per_user: default_max_songs_per_user(),
            device: None,
            speaker: None,
            playlist: None,
            volume: None,
            connect: false,
            echo_current_song: default_true(),
        }
    }

    /// Whether the engine starts paused: the native sink waits for an
    /// explicit start, the connect sink plays at once.
    pub fn starts_paused(&self) -> (r: bool)
        ensures
            r == !self.connect,
    {
        !self.connect
    }
}

/// Lets an action through at most once per period.
#[derive(Debug, Clone, Copy)]
pub struct Cooldown {
    /// The period, in milliseconds.
    pub period_ms: u64,
    /// When it last opened, in monotonic milliseconds.
    pub last_ms: Option<u64>,
}

impl Cooldown {
    /// A cooldown of the given period that is open now.
    pub fn from_duration_ms(period_ms: u64) -> (r: Cooldown)
        ensures
            r.period_ms == period_ms,
            r.last_ms is None,
    {
        Cooldown { period_ms, last_ms: None }
    }

    pub open spec fn open_at(&self, now_ms: u64) -> bool {
        match self.last_ms {
            None => true,
            Some(l) => now_ms >= l + self.period_ms,
        }
    }

    /// Whether the cooldown has run out at `now_ms`; if so a new period starts.
    pub fn is_open(&mut self, now_ms: u64) -> (r: bool)
        ensures
            r == old(self).open_at(now_ms),
            r ==> final(self).last_ms == Some(now_ms) && final(self).period_ms == old(self).period_ms,
            !r ==> *final(self) == *old(self),
    {
        let open = match self.last_ms {
            None => true,
            Some(l) => now_ms as u128 >= l as u128 + self.period_ms as u128,
        };
        if open {
            self.last_ms = Some(now_ms);
        }
        open
    }
}

/// The default cooldown between help messages: five seconds.
pub fn default_cooldown() -> (r: Cooldown)
    ensures
        r.period_ms == 5000,
        r.last_ms is None,
{
    Cooldown::from_duration_ms(5000)
}

/// Settings of the song command module.
#[derive(Debug, Clone, Copy)]
pub struct ModuleConfig {
    pub help_cooldown: Cooldown,
}

impl ModuleConfig {
    /// The module settings with the default help cooldown.
    pub fn new() -> (r: ModuleConfig)
        ensures
            r.help_cooldown.period_ms == 5000,
            r.help_cooldown.last_ms is None,
    {
        ModuleConfig { help_cooldown: default_cooldown() }
    }
}

/// The song command module.
#[derive(Debug, Clone, Copy)]
pub struct Module {
    pub help_cooldown: Cooldown,
}

impl Module {
    /// Loads the module from its settings.
    pub fn load(module: &ModuleConfig) -> (r: Module)
        ensures
            r.help_cooldown == module.help_cooldown,
    {
        Module { help_cooldown: module.help_cooldown }
    }
}

} // verus!
