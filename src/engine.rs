use vstd::prelude::*;

use rand::Rng;

use crate::admission::{
    balance_after, check_duplicate, check_duration, check_limits, check_subscriber, debit,
    needs_subscriber, within_cooldown, AddTrackError, LastRequest, Policy,
};
use crate::queue::{count_by_user, last_by_user, swapped, total_ms, views, Queue};
use crate::track::opt_str_view;
use crate::track::{Item, ItemView, Origin, Provider};

verus! {

/// A command to the playback engine.
#[derive(Debug, PartialEq)]
pub enum Command {
    /// Skip the current song.
    Skip,
    /// Toggle playback.
    Toggle,
    /// Pause playback.
    Pause,
    /// Start playback.
    Play,
    /// The queue was modified.
    Modified,
    /// Set the volume of the player, in percent.
    Volume(u32),
    /// Play the given item right now, starting at the given offset in
    /// milliseconds.
    Inject(Item, u64),
}

pub enum CommandView {
    Skip,
    Toggle,
    Pause,
    Play,
    Modified,
    Volume(u32),
    Inject(ItemView, u64),
}

impl View for Command {
    type V = CommandView;

    open spec fn view(&self) -> CommandView {
        match self {
            Command::Skip => CommandView::Skip,
            Command::Toggle => CommandView::Toggle,
            Command::Pause => CommandView::Pause,
            Command::Play => CommandView::Play,
            Command::Modified => CommandView::Modified,
            Command::Volume(v) => CommandView::Volume(*v),
            Command::Inject(i, o) => CommandView::Inject(i@, *o),
        }
    }
}

/// Events reported by the audio device.
#[derive(Debug, Clone, Copy, PartialEq, Eq, Structural)]
pub enum PlayerEvent {
    /// An event of no interest to the engine.
    Filtered,
}

/// Events broadcast by the engine.
#[derive(Debug, PartialEq)]
pub enum Event {
    /// Nothing is left to play.
    Empty,
    /// Playback of an item started: whether to echo it to chat, where it
    /// came from, and the item.
    Playing(bool, Origin, Item),
    /// Playback was paused.
    Pausing,
    /// The queue was modified in some way.
    Modified,
    /// The player has not been configured yet.
    NotConfigured,
    /// The player lost its audio device.
    Detached,
}

pub enum EventView {
    Empty,
    Playing(bool, Origin, ItemView),
    Pausing,
    Modified,
    NotConfigured,
    Detached,
}

impl View for Event {
    type V = EventView;

    open spec fn view(&self) -> EventView {
        match self {
            Event::Empty => EventView::Empty,
            Event::Playing(e, o, i) => EventView::Playing(*e, *o, i@),
            Event::Pausing => EventView::Pausing,
            Event::Modified => EventView::Modified,
            Event::NotConfigured => EventView::NotConfigured,
            Event::Detached => EventView::Detached,
        }
    }
}

/// Work that the engine hands to the world around it, in order.
#[derive(Debug, PartialEq)]
pub enum Effect {
    /// Load the item into the audio device at the offset in milliseconds.
    Load(Item, u64),
    /// Start the audio device.
    Play,
    /// Pause the audio device.
    Pause,
    /// Stop the audio device.
    Stop,
    /// Set the device volume to the percentage (the device takes it divided by 100).
    Volume(u32),
    /// Send the event on the event bus.
    Broadcast(Event),
    /// Remove the record of a track that left the queue from the durable store.
    RemoveRecord(crate::track::TrackId),
    /// Remove every queue record from the durable store.
    PurgeRecords,
    /// Record in the durable store that the user promoted the track.
    PromoteRecord(String, crate::track::TrackId),
    /// Write the current-song file for the item and paused flag; blank it
    /// when there is no item.
    CurrentSong(Option<Item>, bool),
}

pub enum EffectView {
    Load(ItemView, u64),
    Play,
    Pause,
    Stop,
    Volume(u32),
    Broadcast(EventView),
    RemoveRecord((Provider, Seq<char>)),
    PurgeRecords,
    PromoteRecord(Seq<char>, (Provider, Seq<char>)),
    CurrentSong(Option<ItemView>, bool),
}

pub open spec fn opt_item_view(i: Option<Item>) -> Option<ItemView> {
    match i {
        Some(x) => Some(x@),
        None => None,
    }
}

impl View for Effect {
    type V = EffectView;

    open spec fn view(&self) -> EffectView {
        match self {
            Effect::Load(i, o) => EffectView::Load(i@, *o),
            Effect::Play => EffectView::Play,
            Effect::Pause => EffectView::Pause,
            Effect::Stop => EffectView::Stop,
            Effect::Volume(v) => EffectView::Volume(*v),
            Effect::Broadcast(e) => EffectView::Broadcast(e@),
            Effect::RemoveRecord(t) => EffectView::RemoveRecord(t@),
            Effect::PurgeRecords => EffectView::PurgeRecords,
            Effect::PromoteRecord(u, t) => EffectView::PromoteRecord(u@, t@),
            Effect::CurrentSong(i, p) => EffectView::CurrentSong(opt_item_view(*i), *p),
        }
    }
}

pub open spec fn effect_views(s: Seq<Effect>) -> Seq<EffectView> {
    s.map_values(|e: Effect| e@)
}

/// `record` followed by `fx`.
fn recorded(record: Effect, fx: Vec<Effect>) -> (r: Vec<Effect>)
    ensures
        effect_views(r@) == seq![record@] + effect_views(fx@),
{
    let mut r: Vec<Effect> = Vec::new();
    r.push(record);
    let mut fx = fx;
    let ghost f0 = fx@;
    r.append(&mut fx);
    assert(effect_views(r@) =~= seq![record@] + effect_views(f0));
    r
}

/// The item loaded into the audio device.
#[derive(Debug, PartialEq)]
pub struct Loaded {
    pub origin: Origin,
    pub item: Item,
    /// Monotonic time in milliseconds at which playback began.
    pub started_at_ms: u64,
    /// How far into the track playback began, in milliseconds.
    pub offset_ms: u64,
}

pub struct LoadedView {
    pub origin: Origin,
    pub item: ItemView,
    pub started_at_ms: u64,
    pub offset_ms: u64,
}

impl View for Loaded {
    type V = LoadedView;

    open spec fn view(&self) -> LoadedView {
        LoadedView {
            origin: self.origin,
            item: self.item@,
            started_at_ms: self.started_at_ms,
            offset_ms: self.offset_ms,
        }
    }
}

/// A loaded item pushed aside by an injected one, with the monotonic time in
/// milliseconds at which that happened.
#[derive(Debug)]
pub struct Sidelined {
    pub loaded: Loaded,
    pub paused_at_ms: u64,
}

pub struct SidelinedView {
    pub loaded: LoadedView,
    pub paused_at_ms: u64,
}

impl View for Sidelined {
    type V = SidelinedView;

    open spec fn view(&self) -> SidelinedView {
        SidelinedView { loaded: self.loaded@, paused_at_ms: self.paused_at_ms }
    }
}

/// The mathematical state of a [`Player`].
pub struct PlayerView {
    pub paused: bool,
    pub loaded: Option<LoadedView>,
    /// Pushed-aside items; the last one is resumed first.
    pub sidelined: Seq<SidelinedView>,
    pub inject: Option<(ItemView, u64)>,
    pub volume: u32,
    pub queue: Seq<ItemView>,
    pub fallback: Seq<ItemView>,
    pub echo: bool,
    pub closed: Option<Option<Seq<char>>>,
}

/// The offset, in milliseconds, at which a sidelined item resumes: its
/// start offset plus the time it played before it was pushed aside.
pub open spec fn resume_offset(e: SidelinedView) -> u64 {
    let played: int = if e.paused_at_ms > e.loaded.started_at_ms {
        e.paused_at_ms - e.loaded.started_at_ms
    } else {
        0
    };
    if e.loaded.offset_ms + played > u64::MAX {
        u64::MAX
    } else {
        (e.loaded.offset_ms + played) as u64
    }
}

pub open spec fn fresh(origin: Origin, item: ItemView, now: u64, offset: u64) -> LoadedView {
    LoadedView { origin, item, started_at_ms: now, offset_ms: offset }
}

/// The advance decision: what to load next, the state without it, and the
/// effects of choosing it. `pick` selects the fallback item. When nothing is
/// left the engine pauses: from the empty state only `Play` (or `Toggle`)
/// starts playback again, and a `Modified` from a new request does not.
pub open spec fn next_song_spec(s: PlayerView, now: u64, pick: usize) -> (
    PlayerView,
    Option<LoadedView>,
    Seq<EffectView>,
) {
    if s.inject is Some {
        let (item, offset) = s.inject->0;
        let sidelined = match s.loaded {
            Some(l) => s.sidelined.push(SidelinedView { loaded: l, paused_at_ms: now }),
            None => s.sidelined,
        };
        (
            PlayerView { inject: None, loaded: None, sidelined, ..s },
            Some(fresh(Origin::Injected, item, now, offset)),
            seq![EffectView::Load(item, offset)],
        )
    } else if s.sidelined.len() > 0 {
        let e = s.sidelined.last();
        let offset = resume_offset(e);
        (
            PlayerView { sidelined: s.sidelined.drop_last(), ..s },
            Some(fresh(e.loaded.origin, e.loaded.item, now, offset)),
            seq![EffectView::Load(e.loaded.item, offset)],
        )
    } else if s.queue.len() > 0 {
        let item = s.queue[0];
        (
            PlayerView { queue: s.queue.drop_first(), ..s },
            Some(fresh(Origin::Queue, item, now, 0)),
            seq![EffectView::RemoveRecord(item.track_id), EffectView::Load(item, 0)],
        )
    } else if (!s.paused || s.loaded is Some) && s.fallback.len() > 0 {
        let item = s.fallback[(pick as int) % (s.fallback.len() as int)];
        (s, Some(fresh(Origin::Fallback, item, now, 0)), seq![EffectView::Load(item, 0)])
    } else {
        (PlayerView { paused: true, ..s }, None, Seq::empty())
    }
}

/// Advancing: load what [`next_song_spec`] picks and start or pause it, or
/// enter the empty state. The paused flag is kept: an item injected while
/// paused is loaded paused, and plays on `Play`.
pub open spec fn load_front_spec(s: PlayerView, now: u64, pick: usize) -> (
    PlayerView,
    Seq<EffectView>,
) {
    let (s1, next, fx) = next_song_spec(s, now, pick);
    match next {
        Some(l) => {
            let start = if !s1.paused {
                seq![
                    EffectView::Play,
                    EffectView::Broadcast(EventView::Playing(s1.echo, l.origin, l.item)),
                ]
            } else {
                seq![EffectView::Pause]
            };
            (
                PlayerView { loaded: Some(l), ..s1 },
                fx + start + seq![EffectView::CurrentSong(Some(l.item), s1.paused)],
            )
        },
        None => (
            PlayerView { loaded: None, ..s1 },
            seq![
                EffectView::Broadcast(EventView::Empty),
                EffectView::Stop,
                EffectView::CurrentSong(None, s1.paused),
            ],
        ),
    }
}

pub open spec fn loaded_item(s: PlayerView) -> Option<ItemView> {
    match s.loaded {
        Some(l) => Some(l.item),
        None => None,
    }
}

/// The effect of one command on the engine.
pub open spec fn command_spec(s: PlayerView, c: CommandView, now: u64, pick: usize) -> (
    PlayerView,
    Seq<EffectView>,
) {
    let c = match c {
        CommandView::Toggle => if s.paused {
            CommandView::Play
        } else {
            CommandView::Pause
        },
        other => other,
    };
    match c {
        CommandView::Skip => load_front_spec(s, now, pick),
        CommandView::Pause => if !s.paused {
            (
                PlayerView { paused: true, ..s },
                seq![
                    EffectView::Pause,
                    EffectView::Broadcast(EventView::Pausing),
                    EffectView::CurrentSong(loaded_item(s), true),
                ],
            )
        } else {
            (s, Seq::empty())
        },
        CommandView::Play => if s.paused {
            let s1 = PlayerView { paused: false, ..s };
            match s.loaded {
                Some(l) => (
                    s1,
                    seq![
                        EffectView::Play,
                        EffectView::Broadcast(EventView::Playing(s.echo, l.origin, l.item)),
                        EffectView::CurrentSong(Some(l.item), false),
                    ],
                ),
                None => load_front_spec(s1, now, pick),
            }
        } else {
            (s, Seq::empty())
        },
        CommandView::Modified => {
            let (s1, fx) = if !s.paused && s.loaded is None {
                load_front_spec(s, now, pick)
            } else {
                (s, Seq::empty())
            };
            (s1, fx.push(EffectView::Broadcast(EventView::Modified)))
        },
        CommandView::Volume(v) => {
            let c: u32 = if v > 100 {
                100
            } else {
                v
            };
            (PlayerView { volume: c, ..s }, seq![EffectView::Volume(c)])
        },
        CommandView::Inject(item, offset) => load_front_spec(
            PlayerView { inject: Some((item, offset)), ..s },
            now,
            pick,
        ),
        // Rewritten to `Play` or `Pause` above.
        CommandView::Toggle => (s, Seq::empty()),
    }
}

/// Relies on rand's `Rng::gen_range` over the thread-local generator: a
/// value in `[0, n)`. It panics on an empty range, which `requires` rules out.
#[verifier::external_body]
fn random_below(n: usize) -> (r: usize)
    requires
        n > 0,
    ensures
        r < n,
{
    rand::thread_rng().gen_range(0, n)
}

/// The playback engine: the queue, the loaded item and everything that
/// decides what plays next.
pub struct Player {
    paused: bool,
    loaded: Option<Loaded>,
    sidelined: Vec<Sidelined>,
    inject: Option<(Item, u64)>,
    volume: u32,
    queue: Queue,
    fallback: Vec<Item>,
    echo: bool,
    closed: Option<Option<String>>,
}

pub open spec fn opt_loaded_view(l: Option<Loaded>) -> Option<LoadedView> {
    match l {
        Some(x) => Some(x@),
        None => None,
    }
}

pub open spec fn opt_inject_view(i: Option<(Item, u64)>) -> Option<(ItemView, u64)> {
    match i {
        Some(x) => Some((x.0@, x.1)),
        None => None,
    }
}

pub open spec fn closed_view(c: Option<Option<String>>) -> Option<Option<Seq<char>>> {
    match c {
        Some(r) => Some(crate::track::opt_str_view(r)),
        None => None,
    }
}

impl View for Player {
    type V = PlayerView;

    closed spec fn view(&self) -> PlayerView {
        PlayerView {
            paused: self.paused,
            loaded: opt_loaded_view(self.loaded),
            sidelined: self.sidelined@.map_values(|e: Sidelined| e@),
            inject: opt_inject_view(self.inject),
            volume: self.volume,
            queue: self.queue@,
            fallback: views(self.fallback@),
            echo: self.echo,
            closed: closed_view(self.closed),
        }
    }
}


/// The offset at which the sidelined entry `e` resumes.
fn resume_offset_of(e: &Sidelined) -> (r: u64)
    ensures
        r == resume_offset(e@),
{
    let played: u64 = if e.paused_at_ms > e.loaded.started_at_ms {
        e.paused_at_ms - e.loaded.started_at_ms
    } else {
        0
    };
    if e.loaded.offset_ms > u64::MAX - played {
        u64::MAX
    } else {
        e.loaded.offset_ms + played
    }
}

pub open spec fn initial_view(
    queue: Seq<ItemView>,
    fallback: Seq<ItemView>,
    paused: bool,
    volume: Option<u32>,
    echo: bool,
) -> PlayerView {
    PlayerView {
        paused,
        loaded: None,
        sidelined: Seq::empty(),
        inject: None,
        volume: match volume {
            Some(v) => if v > 100 {
                100
            } else {
                v
            },
            None => 100,
        },
        queue,
        fallback,
        echo,
        closed: None,
    }
}

impl Player {
    /// A player over the restored `queue` and the `fallback` pool, paused or
    /// not, at the configured volume clamped to 100 (100 when unset).
    pub fn new(queue: Queue, fallback: Vec<Item>, paused: bool, volume: Option<u32>, echo: bool) -> (r:
        Player)
        ensures
            r@ == initial_view(queue@, views(fallback@), paused, volume, echo),
    {
        let volume: u32 = match volume {
            Some(v) => if v > 100 {
                100
            } else {
                v
            },
            None => 100,
        };
        let r = Player {
            paused,
            loaded: None,
            sidelined: Vec::new(),
            inject: None,
            volume,
            queue,
            fallback,
            echo,
            closed: None,
        };
        assert(r@.sidelined =~= Seq::<SidelinedView>::empty());
        r
    }

    /// Handles one command; `pick` selects the fallback item should one be
    /// needed (it is reduced modulo the size of the pool).
    pub fn command(&mut self, command: Command, now: u64, pick: usize) -> (r: Vec<Effect>)
        ensures
            (final(self)@, effect_views(r@)) == command_spec(old(self)@, command@, now, pick),
    {
        let mut fx: Vec<Effect> = Vec::new();
        let command = match command {
            Command::Toggle => if self.paused {
                Command::Play
            } else {
                Command::Pause
            },
            other => other,
        };
        match command {
            Command::Skip => {
                self.load_front(now, pick, &mut fx);
            },
            Command::Pause => {
                if !self.paused {
                    self.paused = true;
                    fx.push(Effect::Pause);
                    fx.push(Effect::Broadcast(Event::Pausing));
                    let current = match &self.loaded {
                        Some(l) => Some(l.item.clone()),
                        None => None,
                    };
                    fx.push(Effect::CurrentSong(current, true));
                }
            },
            Command::Play => {
                if self.paused {
                    self.paused = false;
                    match &self.loaded {
                        Some(l) => {
                            fx.push(Effect::Play);
                            fx.push(
                                Effect::Broadcast(Event::Playing(self.echo, l.origin, l.item.clone())),
                            );
                            fx.push(Effect::CurrentSong(Some(l.item.clone()), false));
                        },
                        None => {
                            self.load_front(now, pick, &mut fx);
                        },
                    }
                }
            },
            Command::Modified => {
                if !self.paused && self.loaded.is_none() {
                    self.load_front(now, pick, &mut fx);
                }
                let ghost fx1 = fx@;
                fx.push(Effect::Broadcast(Event::Modified));
                proof {
                    assert(effect_views(fx@) =~= effect_views(fx1).push(
                        EffectView::Broadcast(EventView::Modified),
                    ));
                }
            },
            Command::Volume(v) => {
                let v: u32 = if v > 100 {
                    100
                } else {
                    v
                };
                self.volume = v;
                fx.push(Effect::Volume(v));
            },
            Command::Inject(item, offset) => {
                self.inject = Some((item, offset));
                self.load_front(now, pick, &mut fx);
            },
            // Rewritten to `Play` or `Pause` above.
            Command::Toggle => {},
        }
        proof {
            assert(effect_views(Seq::<Effect>::empty()) =~= Seq::<EffectView>::empty());
            assert(effect_views(fx@) =~= command_spec(old(self)@, command@, now, pick).1);
        }
        fx
    }

    /// Plays `theme` right now from its offset, pushing the loaded item
    /// aside. `resolved` is what the catalog gave for the theme's track: its
    /// metadata, or `None` when resolving failed, which fails the theme and
    /// changes nothing. The injected item has the theme's track and no
    /// requester.
    pub fn play_theme(
        &mut self,
        theme: &crate::themes::Theme,
        resolved: Option<crate::track::TrackMeta>,
        now: u64,
        pick: usize,
    ) -> (r: (Result<(), crate::themes::PlayThemeError>, Vec<Effect>))
        ensures
            resolved is None ==> r.0 == Err::<(), crate::themes::PlayThemeError>(
                crate::themes::PlayThemeError::Error,
            ) && final(self)@ == old(self)@ && r.1@.len() == 0,
            resolved matches Some(meta) ==> r.0 is Ok && (final(self)@, effect_views(r.1@))
                == command_spec(
                old(self)@,
                CommandView::Inject(
                    ItemView {
                        track_id: theme.track_id@,
                        artists: meta.artists@.map_values(|a: String| a@),
                        name: meta.name@,
                        user: None,
                        duration_ms: meta.duration_ms,
                    },
                    theme.offset_ms,
                ),
                now,
                pick,
            ),
    {
        match resolved {
            None => (Err(crate::themes::PlayThemeError::Error), Vec::new()),
            Some(meta) => {
                let item = Item::from_meta(theme.track_id.clone(), meta, None);
                let fx = self.command(Command::Inject(item, theme.offset_ms), now, pick);
                (Ok(()), fx)
            },
        }
    }

    /// Draws a position in the fallback pool uniformly at random.
    pub fn draw_pick(&self) -> (r: usize)
        ensures
            self@.fallback.len() > 0 ==> r < self@.fallback.len(),
            self@.fallback.len() == 0 ==> r == 0,
    {
        let n = self.fallback.len();
        if n > 0 {
            random_below(n)
        } else {
            0
        }
    }

    /// Handles one command, drawing the fallback item at random.
    pub fn handle(&mut self, command: Command, now: u64) -> (r: Vec<Effect>)
        ensures
            exists|pick: usize|
                (old(self)@.fallback.len() > 0 ==> pick < old(self)@.fallback.len()) && (
                final(self)@,
                effect_views(r@),
            ) == command_spec(old(self)@, command@, now, pick),
    {
        let pick = self.draw_pick();
        self.command(command, now, pick)
    }

    /// The loaded item finished playing: advance.
    pub fn song_ended(&mut self, now: u64, pick: usize) -> (r: Vec<Effect>)
        ensures
            (final(self)@, effect_views(r@)) == load_front_spec(old(self)@, now, pick),
    {
        let mut fx: Vec<Effect> = Vec::new();
        self.load_front(now, pick, &mut fx);
        proof {
            assert(effect_views(Seq::<Effect>::empty()) =~= Seq::<EffectView>::empty());
            assert(effect_views(fx@) =~= load_front_spec(old(self)@, now, pick).1);
        }
        fx
    }

    /// The device dropped the load: clear the loaded item without advancing.
    pub fn load_canceled(&mut self)
        ensures
            final(self)@ == (PlayerView { loaded: None, ..old(self)@ }),
    {
        self.loaded = None;
    }

    /// Whether playback is paused.
    pub fn is_paused(&self) -> (r: bool)
        ensures
            r == self@.paused,
    {
        self.paused
    }

    /// The current volume, in percent.
    pub fn current_volume(&self) -> (r: u32)
        ensures
            r == self@.volume,
    {
        self.volume
    }

    /// How far into the loaded item playback is at `now`, in milliseconds:
    /// its start offset plus the time since it was loaded.
    pub fn elapsed_ms(&self, now: u64) -> (r: Option<u128>)
        ensures
            r matches Some(e) ==> self@.loaded is Some && e == elapsed_spec(self@.loaded->0, now),
            r is None ==> self@.loaded is None,
    {
        match &self.loaded {
            Some(l) => {
                let since: u128 = if now > l.started_at_ms {
                    (now - l.started_at_ms) as u128
                } else {
                    0
                };
                Some(l.offset_ms as u128 + since)
            },
            None => None,
        }
    }

    /// A copy of the loaded item, if any.
    pub fn current(&self) -> (r: Option<Item>)
        ensures
            opt_item_view(r) == loaded_item(self@),
    {
        match &self.loaded {
            Some(l) => Some(l.item.clone()),
            None => None,
        }
    }

    /// The origin of the loaded item, if any.
    pub fn current_origin(&self) -> (r: Option<Origin>)
        ensures
            r == (match self@.loaded {
                Some(l) => Some(l.origin),
                None => None::<Origin>,
            }),
    {
        match &self.loaded {
            Some(l) => Some(l.origin),
            None => None,
        }
    }

    /// The pending queue.
    pub fn queue(&self) -> (r: &Queue)
        ensures
            r@ == self@.queue,
    {
        &self.queue
    }

    /// The effects of a queue change: a `Modified` command when `changed`,
    /// nothing otherwise.
    fn after_change(&mut self, changed: bool, now: u64, pick: usize) -> (r: Vec<Effect>)
        ensures
            changed ==> (final(self)@, effect_views(r@)) == command_spec(
                old(self)@,
                CommandView::Modified,
                now,
                pick,
            ),
            !changed ==> final(self)@ == old(self)@ && r@.len() == 0,
    {
        if changed {
            self.command(Command::Modified, now, pick)
        } else {
            Vec::new()
        }
    }

    /// Swaps the item at queue position `n` with the head of the queue on
    /// behalf of `user`. Returns a copy of the new head and, on success, the
    /// record of the promotion followed by the effects of the queue change.
    pub fn promote_song(&mut self, user: &str, n: usize, now: u64, pick: usize) -> (r: (
        Option<Item>,
        Vec<Effect>,
    ))
        ensures
            n >= old(self)@.queue.len() ==> r.0 is None && final(self)@ == old(self)@ && r.1@.len()
                == 0,
            n < old(self)@.queue.len() ==> r.0 is Some && r.0->0@ == old(self)@.queue[n as int]
                && (final(self)@ == command_spec(
                PlayerView { queue: swapped(old(self)@.queue, n as int), ..old(self)@ },
                CommandView::Modified,
                now,
                pick,
            ).0 && effect_views(r.1@) == seq![EffectView::PromoteRecord(user@, old(self)@.queue[n as int].track_id)] + command_spec(
                PlayerView { queue: swapped(old(self)@.queue, n as int), ..old(self)@ },
                CommandView::Modified,
                now,
                pick,
            ).1),
    {
        match self.queue.promote_song(n) {
            None => (None, Vec::new()),
            Some(item) => {
                let record = Effect::PromoteRecord(
                    <String as vstd::string::StringExecFns>::from_str(user),
                    item.track_id.clone(),
                );
                let fx = self.after_change(true, now, pick);
                (Some(item), recorded(record, fx))
            },
        }
    }

    /// Empties the queue and returns what it held. A non-empty purge clears
    /// the stored records and is a queue change.
    pub fn purge(&mut self, now: u64, pick: usize) -> (r: (Vec<Item>, Vec<Effect>))
        ensures
            views(r.0@) == old(self)@.queue,
            old(self)@.queue.len() == 0 ==> final(self)@ == old(self)@ && r.1@.len() == 0,
            old(self)@.queue.len() > 0 ==> (final(self)@ == command_spec(
                PlayerView { queue: Seq::empty(), ..old(self)@ },
                CommandView::Modified,
                now,
                pick,
            ).0 && effect_views(r.1@) == seq![EffectView::PurgeRecords] + command_spec(
                PlayerView { queue: Seq::empty(), ..old(self)@ },
                CommandView::Modified,
                now,
                pick,
            ).1),
    {
        let ghost q0 = self.queue@;
        let purged = self.queue.purge();
        proof {
            if q0.len() == 0 {
                assert(self.queue@ =~= q0);
            }
        }
        if purged.len() == 0 {
            return (purged, Vec::new());
        }
        let fx = self.after_change(true, now, pick);
        (purged, recorded(Effect::PurgeRecords, fx))
    }

    /// Removes the item at queue position `n`, if there is one, with its
    /// stored record.
    pub fn remove_at(&mut self, n: usize, now: u64, pick: usize) -> (r: (Option<Item>, Vec<Effect>))
        ensures
            n >= old(self)@.queue.len() ==> r.0 is None && final(self)@ == old(self)@ && r.1@.len()
                == 0,
            n < old(self)@.queue.len() ==> r.0 is Some && r.0->0@ == old(self)@.queue[n as int]
                && (final(self)@ == command_spec(
                PlayerView { queue: old(self)@.queue.remove(n as int), ..old(self)@ },
                CommandView::Modified,
                now,
                pick,
            ).0 && effect_views(r.1@) == seq![EffectView::RemoveRecord(old(self)@.queue[n as int].track_id)] + command_spec(
                PlayerView { queue: old(self)@.queue.remove(n as int), ..old(self)@ },
                CommandView::Modified,
                now,
                pick,
            ).1),
    {
        let removed = self.queue.remove_at(n);
        self.after_removal(removed, now, pick)
    }

    /// Removes the item at the back of the queue, if any, with its stored
    /// record.
    pub fn remove_last(&mut self, now: u64, pick: usize) -> (r: (Option<Item>, Vec<Effect>))
        ensures
            old(self)@.queue.len() == 0 ==> r.0 is None && final(self)@ == old(self)@ && r.1@.len()
                == 0,
            old(self)@.queue.len() > 0 ==> r.0 is Some && r.0->0@ == old(self)@.queue.last()
                && (final(self)@ == command_spec(
                PlayerView { queue: old(self)@.queue.drop_last(), ..old(self)@ },
                CommandView::Modified,
                now,
                pick,
            ).0 && effect_views(r.1@) == seq![EffectView::RemoveRecord(old(self)@.queue.last().track_id)] + command_spec(
                PlayerView { queue: old(self)@.queue.drop_last(), ..old(self)@ },
                CommandView::Modified,
                now,
                pick,
            ).1),
    {
        let removed = self.queue.remove_last();
        self.after_removal(removed, now, pick)
    }

    /// Removes the last queued item requested by `user`, if any, with its
    /// stored record.
    pub fn remove_last_by_user(&mut self, user: &str, now: u64, pick: usize) -> (r: (
        Option<Item>,
        Vec<Effect>,
    ))
        ensures
            last_by_user(old(self)@.queue, user@) is None ==> r.0 is None && final(self)@ == old(
                self,
            )@ && r.1@.len() == 0,
            last_by_user(old(self)@.queue, user@) matches Some(p) ==> r.0 is Some && r.0->0@
                == old(self)@.queue[p] && (final(self)@ == command_spec(
                PlayerView { queue: old(self)@.queue.remove(p), ..old(self)@ },
                CommandView::Modified,
                now,
                pick,
            ).0 && effect_views(r.1@) == seq![EffectView::RemoveRecord(old(self)@.queue[p].track_id)] + command_spec(
                PlayerView { queue: old(self)@.queue.remove(p), ..old(self)@ },
                CommandView::Modified,
                now,
                pick,
            ).1),
    {
        let removed = self.queue.remove_last_by_user(user);
        self.after_removal(removed, now, pick)
    }

    /// The outcome of a removal: nothing when nothing was removed, else the
    /// removal of its record and the queue change.
    fn after_removal(&mut self, removed: Option<Item>, now: u64, pick: usize) -> (r: (
        Option<Item>,
        Vec<Effect>,
    ))
        ensures
            removed is None ==> r.0 is None && final(self)@ == old(self)@ && r.1@.len() == 0,
            removed matches Some(i) ==> r.0 == removed && final(self)@ == command_spec(
                old(self)@,
                CommandView::Modified,
                now,
                pick,
            ).0 && effect_views(r.1@) == seq![EffectView::RemoveRecord(i@.track_id)] + command_spec(
                old(self)@,
                CommandView::Modified,
                now,
                pick,
            ).1,
    {
        match removed {
            None => (None, Vec::new()),
            Some(item) => {
                let record = Effect::RemoveRecord(item.track_id.clone());
                let fx = self.after_change(true, now, pick);
                (Some(item), recorded(record, fx))
            },
        }
    }

    /// Closes the player for requests, with an optional reason.
    pub fn close(&mut self, reason: Option<String>)
        ensures
            final(self)@ == (PlayerView { closed: Some(opt_str_view(reason)), ..old(self)@ }),
    {
        self.closed = Some(reason);
    }

    /// Opens the player for requests.
    pub fn open(&mut self)
        ensures
            final(self)@ == (PlayerView { closed: None, ..old(self)@ }),
    {
        self.closed = None;
    }

    /// Whether the player is closed, and with which reason.
    pub fn closed(&self) -> (r: &Option<Option<String>>)
        ensures
            closed_view(*r) == self@.closed,
    {
        &self.closed
    }

    /// Checks the queue's limits for `item`, requested by `user`, and
    /// returns the position it would take. Nothing changes: the caller
    /// stores the record and then calls [`Player::commit_track`].
    pub fn add_track(
        &self,
        user: &str,
        item: &Item,
        is_moderator: bool,
        max_queue_length: u32,
        max_songs_per_user: u32,
    ) -> (r: Result<usize, AddTrackError>)
        requires
            item@.user == Some(user@),
        ensures
            self@.queue.len() <= usize::MAX,
            ({
                let limits = limits_spec(
                    self@,
                    item@.track_id,
                    user@,
                    is_moderator,
                    max_queue_length,
                    max_songs_per_user,
                );
                &&& limits is Ok ==> r == Ok::<usize, AddTrackError>(self@.queue.len() as usize)
                &&& limits is Err ==> r is Err && refusal_matches(r->Err_0, limits->Err_0)
            }),
    {
        // A queue never holds more items than a `usize` counts.
        let _ = self.queue.len();
        check_limits(
            &self.queue,
            &item.track_id,
            user,
            is_moderator,
            &self.closed,
            max_queue_length,
            max_songs_per_user,
        )
    }

    /// The checks of a request for `track_id` by `user` that need no
    /// metadata, run before resolving the track: provider support,
    /// subscriber gate, queue limits and duplicate cooldown, stopping at the
    /// first refusal. Returns the position the track would take.
    pub fn precheck(
        &self,
        policy: &Policy,
        user: &str,
        is_moderator: bool,
        is_subscriber: bool,
        track_id: &crate::track::TrackId,
        last: &Option<LastRequest>,
        wall_ms: u64,
    ) -> (r: Result<usize, AddTrackError>)
        ensures
            self@.queue.len() <= usize::MAX,
            ({
                let outcome = precheck_spec(
                    self@,
                    *policy,
                    user@,
                    is_moderator,
                    is_subscriber,
                    track_id@,
                    *last,
                    wall_ms,
                );
                &&& outcome matches Ok(pos) ==> r == Ok::<usize, AddTrackError>(pos)
                &&& outcome is Err ==> r is Err && refusal_matches(r->Err_0, outcome->Err_0)
            }),
    {
        let provider = track_id.provider();
        // A queue never holds more items than a `usize` counts.
        let _ = self.queue.len();
        if track_id.is_youtube() && !policy.youtube_support {
            return Err(AddTrackError::YouTubeDisabled);
        }
        match check_subscriber(policy, provider, is_moderator, is_subscriber) {
            Err(e) => return Err(e),
            Ok(()) => {},
        }
        let pos = match check_limits(
            &self.queue,
            track_id,
            user,
            is_moderator,
            &self.closed,
            policy.max_queue_length,
            policy.max_songs_per_user,
        ) {
            Err(e) => return Err(e),
            Ok(pos) => pos,
        };
        if !is_moderator {
            match check_duplicate(last, wall_ms, policy.duplicate_limit_ms) {
                Err(e) => return Err(e),
                Ok(()) => {},
            }
        }
        Ok(pos)
    }

    /// The full admission of a resolved request for `item` by `user`:
    /// provider support, subscriber gate, queue limits, duplicate cooldown,
    /// duration cap and price, in that order, stopping at the first refusal.
    /// Returns the position the item would take and the balance left after
    /// paying. Nothing changes: the caller debits, stores the record and then
    /// calls [`Player::commit_track`].
    ///
    /// `last` is the last request of the same track, `wall_ms` the time now
    /// in milliseconds since the epoch, `balance` the requester's currency.
    pub fn request(
        &self,
        policy: &Policy,
        user: &str,
        is_moderator: bool,
        is_subscriber: bool,
        item: &Item,
        last: &Option<LastRequest>,
        wall_ms: u64,
        balance: i64,
    ) -> (r: Result<(usize, i64), AddTrackError>)
        requires
            item@.user == Some(user@),
        ensures
            self@.queue.len() <= usize::MAX,
            ({
                let outcome = request_spec(
                    self@,
                    *policy,
                    user@,
                    is_moderator,
                    is_subscriber,
                    item@,
                    *last,
                    wall_ms,
                    balance,
                );
                &&& outcome matches Ok((pos, left)) ==> r matches Ok(v) && v.0 == pos && v.1 == left
                &&& outcome is Err ==> r is Err && refusal_matches(r->Err_0, outcome->Err_0)
            }),
    {
        let provider = item.track_id.provider();
        // A queue never holds more items than a `usize` counts.
        let _ = self.queue.len();
        if item.track_id.is_youtube() && !policy.youtube_support {
            return Err(AddTrackError::YouTubeDisabled);
        }
        match check_subscriber(policy, provider, is_moderator, is_subscriber) {
            Err(e) => return Err(e),
            Ok(()) => {},
        }
        let pos = match check_limits(
            &self.queue,
            &item.track_id,
            user,
            is_moderator,
            &self.closed,
            policy.max_queue_length,
            policy.max_songs_per_user,
        ) {
            Err(e) => return Err(e),
            Ok(pos) => pos,
        };
        if !is_moderator {
            match check_duplicate(last, wall_ms, policy.duplicate_limit_ms) {
                Err(e) => return Err(e),
                Ok(()) => {},
            }
        }
        match check_duration(policy, provider, item.duration_ms) {
            Err(e) => return Err(e),
            Ok(()) => {},
        }
        let left = match debit(balance, policy.provider(provider).min_currency) {
            Err(e) => return Err(e),
            Ok(left) => left,
        };
        Ok((pos, left))
    }

    /// Appends an admitted `item` once its record is stored (`stored`), and
    /// runs the queue change. When storing failed the queue is left as it
    /// was, the request fails with [`AddTrackError::Error`] and the price
    /// paid is given back: `balance` is what was left after paying `price`.
    pub fn commit_track(
        &mut self,
        item: Item,
        stored: bool,
        balance: i64,
        price: i64,
        now: u64,
        pick: usize,
    ) -> (r: (Result<usize, AddTrackError>, i64, Vec<Effect>))
        requires
            price > 0 ==> balance + price <= i64::MAX,
        ensures
            stored ==> r.0 == Ok::<usize, AddTrackError>(old(self)@.queue.len() as usize) && r.1
                == balance && (final(self)@, effect_views(r.2@)) == command_spec(
                PlayerView { queue: old(self)@.queue.push(item@), ..old(self)@ },
                CommandView::Modified,
                now,
                pick,
            ),
            !stored ==> r.0 == Err::<usize, AddTrackError>(AddTrackError::Error) && final(self)@
                == old(self)@ && r.2@.len() == 0 && r.1 == (if price > 0 {
                balance + price
            } else {
                balance as int
            }),
    {
        if !stored {
            return (Err(AddTrackError::Error), crate::admission::refund(balance, price), Vec::new());
        }
        let pos = self.queue.len();
        self.queue.push_back(item);
        let fx = self.after_change(true, now, pick);
        (Ok(pos), balance, fx)
    }

    /// The number of items, the loaded one included, and their total play
    /// time in whole seconds.
    pub fn length(&self) -> (r: (usize, u64))
        ensures
            r.0 == length_spec(self@).0,
            r.1 == length_spec(self@).1,
    {
        let mut count: u128 = self.queue.len() as u128;
        let mut ms: u128 = self.queue.total_ms();
        proof {
            assert(total_ms(self@.queue) <= self@.queue.len() * 0xffff_ffff_ffff_ffff) by {
                lemma_total_ms_bound(self@.queue);
            }
            assert(self@.queue.len() * 0xffff_ffff_ffff_ffff <= usize::MAX as int * 0xffff_ffff_ffff_ffff) by (nonlinear_arith)
                requires self@.queue.len() <= usize::MAX;
        }
        match &self.loaded {
            Some(l) => {
                count = count + 1;
                ms = ms + l.item.duration_ms as u128;
            },
            None => {},
        }
        let count: usize = if count > usize::MAX as u128 {
            usize::MAX
        } else {
            count as usize
        };
        let secs = ms / 1000;
        let secs: u64 = if secs > u64::MAX as u128 {
            u64::MAX
        } else {
            secs as u64
        };
        (count, secs)
    }

    /// How long, in milliseconds, until the next item requested by `user`
    /// plays, and a copy of it; zero when it is playing now.
    pub fn when(&self, user: &str, now: u64) -> (r: Option<(u128, Item)>)
        ensures
            r matches Some(w) ==> when_spec(self@, user@, now) == Some((w.0 as nat, w.1@)),
            r is None ==> when_spec(self@, user@, now) is None,
    {
        let mut wait: u128 = 0;
        match &self.loaded {
            Some(l) => {
                if l.item.requested_by(user) {
                    return Some((0, l.item.clone()));
                }
                let elapsed: u128 = if now > l.started_at_ms {
                    (now - l.started_at_ms) as u128
                } else {
                    0
                };
                let played: u128 = l.offset_ms as u128 + elapsed;
                if played < l.item.duration_ms as u128 {
                    wait = l.item.duration_ms as u128 - played;
                }
            },
            None => {},
        }
        let items = self.queue.list();
        let ghost q = self@.queue;
        let mut i: usize = 0;
        proof {
            assert(q.subrange(0, q.len() as int) =~= q);
        }
        while i < items.len()
            invariant
                i <= items@.len(),
                views(items@) == q,
                q == self@.queue,
                wait <= (i + 1) * 0xffff_ffff_ffff_ffff,
                when_spec(self@, user@, now) == wait_in_queue(
                    q.subrange(i as int, q.len() as int),
                    user@,
                    wait as nat,
                ),
            decreases items@.len() - i,
        {
            let ghost rest = q.subrange(i as int, q.len() as int);
            proof {
                assert(rest[0] == items@[i as int]@);
                assert(rest.drop_first() =~= q.subrange(i + 1, q.len() as int));
            }
            if items[i].requested_by(user) {
                return Some((wait, items[i].clone()));
            }
            proof {
                assert((i + 2) * 0xffff_ffff_ffff_ffff == (i + 1) * 0xffff_ffff_ffff_ffff
                    + 0xffff_ffff_ffff_ffff) by (nonlinear_arith);
                assert((i + 2) * 0xffff_ffff_ffff_ffffu128 <= 0x1_0000_0000_0000_0001 * 0xffff_ffff_ffff_ffffu128) by (nonlinear_arith)
                    requires i + 2 <= 0x1_0000_0000_0000_0001u128;
            }
            wait = wait + items[i].duration_ms as u128;
            i = i + 1;
        }
        proof {
            assert(q.subrange(i as int, q.len() as int).len() == 0);
        }
        None
    }

    /// The loaded item, if any, followed by every queued item.
    pub fn list(&self) -> (r: Vec<Item>)
        ensures
            views(r@) == (match loaded_item(self@) {
                Some(i) => seq![i] + self@.queue,
                None => self@.queue,
            }),
    {
        let mut out: Vec<Item> = Vec::new();
        match &self.loaded {
            Some(l) => out.push(l.item.clone()),
            None => {},
        }
        let mut rest = self.queue.list();
        let ghost o0 = out@;
        let ghost r0 = rest@;
        out.append(&mut rest);
        proof {
            assert(views(out@) =~= views(o0) + views(r0));
            if self.loaded is Some {
                assert(views(o0) =~= seq![loaded_item(self@)->0]);
            } else {
                assert(views(o0) =~= Seq::<ItemView>::empty());
            }
        }
        out
    }

    /// Decides what to load next and appends the effects of loading it.
    fn next_song(&mut self, now: u64, pick: usize, fx: &mut Vec<Effect>) -> (r: Option<Loaded>)
        ensures
            ({
                let (s1, next, efx) = next_song_spec(old(self)@, now, pick);
                &&& final(self)@ == s1
                &&& opt_loaded_view(r) == next
                &&& effect_views(final(fx)@) == effect_views(old(fx)@) + efx
            }),
    {
        let ghost s0 = self@;
        let mut inject: Option<(Item, u64)> = None;
        std::mem::swap(&mut inject, &mut self.inject);
        match inject {
            Some((item, offset)) => {
                let mut loaded: Option<Loaded> = None;
                std::mem::swap(&mut loaded, &mut self.loaded);
                match loaded {
                    Some(l) => {
                        self.sidelined.push(Sidelined { loaded: l, paused_at_ms: now });
                    },
                    None => {},
                }
                let ghost fx0 = fx@;
                fx.push(Effect::Load(item.clone(), offset));
                proof {
                    assert(effect_views(fx@) =~= effect_views(fx0) + seq![
                        EffectView::Load(item@, offset),
                    ]);
                    assert(self@.sidelined =~= next_song_spec(s0, now, pick).0.sidelined);
                }
                return Some(
                    Loaded { origin: Origin::Injected, item, started_at_ms: now, offset_ms: offset },
                );
            },
            None => {},
        }
        if self.sidelined.len() > 0 {
            let ghost fx0 = fx@;
            let e = self.sidelined.pop().unwrap();
            let offset = resume_offset_of(&e);
            fx.push(Effect::Load(e.loaded.item.clone(), offset));
            proof {
                assert(effect_views(fx@) =~= effect_views(fx0) + seq![
                    EffectView::Load(e.loaded.item@, offset),
                ]);
                assert(self@.sidelined =~= s0.sidelined.drop_last());
            }
            return Some(
                Loaded {
                    origin: e.loaded.origin,
                    item: e.loaded.item,
                    started_at_ms: now,
                    offset_ms: offset,
                },
            );
        }
        match self.queue.pop_front() {
            Some(item) => {
                let ghost fx0 = fx@;
                fx.push(Effect::RemoveRecord(item.track_id.clone()));
                fx.push(Effect::Load(item.clone(), 0));
                proof {
                    assert(effect_views(fx@) =~= effect_views(fx0) + seq![
                        EffectView::RemoveRecord(item@.track_id),
                        EffectView::Load(item@, 0),
                    ]);
                }
                return Some(
                    Loaded { origin: Origin::Queue, item, started_at_ms: now, offset_ms: 0 },
                );
            },
            None => {},
        }
        let n = self.fallback.len();
        if (!self.paused || self.loaded.is_some()) && n > 0 {
            let ghost fx0 = fx@;
            let item = self.fallback[pick % n].clone();
            fx.push(Effect::Load(item.clone(), 0));
            proof {
                assert(effect_views(fx@) =~= effect_views(fx0) + seq![EffectView::Load(item@, 0)]);
            }
            return Some(Loaded { origin: Origin::Fallback, item, started_at_ms: now, offset_ms: 0 });
        }
        self.paused = true;
        proof {
            assert(effect_views(fx@) =~= effect_views(fx@) + Seq::<EffectView>::empty());
        }
        None
    }

    /// Advances to the next item, or enters the empty state.
    fn load_front(&mut self, now: u64, pick: usize, fx: &mut Vec<Effect>)
        ensures
            ({
                let (s1, efx) = load_front_spec(old(self)@, now, pick);
                &&& final(self)@ == s1
                &&& effect_views(final(fx)@) == effect_views(old(fx)@) + efx
            }),
    {
        let ghost fx0 = fx@;
        match self.next_song(now, pick, fx) {
            Some(l) => {
                let ghost fx1 = fx@;
                if !self.paused {
                    fx.push(Effect::Play);
                    fx.push(Effect::Broadcast(Event::Playing(self.echo, l.origin, l.item.clone())));
                } else {
                    fx.push(Effect::Pause);
                }
                let current = l.item.clone();
                let paused = self.paused;
                self.loaded = Some(l);
                fx.push(Effect::CurrentSong(Some(current), paused));
                proof {
                    let (s1, next, efx) = next_song_spec(old(self)@, now, pick);
                    let ll = next->0;
                    let start = if !s1.paused {
                        seq![
                            EffectView::Play,
                            EffectView::Broadcast(EventView::Playing(s1.echo, ll.origin, ll.item)),
                        ]
                    } else {
                        seq![EffectView::Pause]
                    };
                    assert(effect_views(fx@) =~= effect_views(fx1) + start + seq![
                        EffectView::CurrentSong(Some(ll.item), s1.paused),
                    ]);
                    assert(effect_views(fx@) =~= effect_views(fx0) + efx + start + seq![
                        EffectView::CurrentSong(Some(ll.item), s1.paused),
                    ]);
                }
            },
            None => {
                let ghost fx1 = fx@;
                self.loaded = None;
                fx.push(Effect::Broadcast(Event::Empty));
                fx.push(Effect::Stop);
                fx.push(Effect::CurrentSong(None, self.paused));
                proof {
                    assert(effect_views(fx@) =~= effect_views(fx0) + seq![
                        EffectView::Broadcast(EventView::Empty),
                        EffectView::Stop,
                        EffectView::CurrentSong(None, self.paused),
                    ]);
                }
            },
        }
    }
}


/// The limits check of a request against state `s`: the position the track
/// takes, or the refusal.
pub open spec fn limits_spec(
    s: PlayerView,
    track: (Provider, Seq<char>),
    user: Seq<char>,
    is_moderator: bool,
    max_queue_length: u32,
    max_songs_per_user: u32,
) -> Result<nat, Refusal> {
    if !is_moderator && s.closed is Some {
        Err(Refusal::PlayerClosed(s.closed->0))
    } else if !is_moderator && s.queue.len() > max_queue_length {
        Err(Refusal::QueueFull)
    } else if crate::admission::contains_track(s.queue, track) {
        Err(Refusal::QueueContainsTrack(choose|i: int| crate::admission::first_match(s.queue, track, i)))
    } else if !is_moderator && count_by_user(s.queue, user) >= max_songs_per_user {
        Err(Refusal::TooManyUserTracks(max_songs_per_user))
    } else {
        Ok(s.queue.len())
    }
}

/// The outcome of a request for `item` by `user` against state `s`: the
/// position it takes and the balance left, or the first refusal.
/// The checks of a request that need only the track id, in order: provider
/// support, subscriber gate, queue limits and duplicate cooldown. They run
/// before the track is resolved; the position the track would take is
/// returned.
pub open spec fn precheck_spec(
    s: PlayerView,
    policy: Policy,
    user: Seq<char>,
    is_moderator: bool,
    is_subscriber: bool,
    track: (Provider, Seq<char>),
    last: Option<LastRequest>,
    wall_ms: u64,
) -> Result<usize, Refusal> {
    let p = track.0;
    let limits = limits_spec(
        s,
        track,
        user,
        is_moderator,
        policy.max_queue_length,
        policy.max_songs_per_user,
    );
    if p == Provider::YouTube && !policy.youtube_support {
        Err(Refusal::YouTubeDisabled)
    } else if needs_subscriber(policy, p, is_moderator) && !is_subscriber {
        Err(Refusal::SubscribersOnly(p))
    } else if limits is Err {
        Err(limits->Err_0)
    } else if !is_moderator && last is Some && within_cooldown(
        last->0.when_ms,
        wall_ms,
        policy.duplicate_limit_ms,
    ) {
        Err(
            Refusal::Duplicate(
                last->0.when_ms,
                opt_str_view(last->0.user),
                policy.duplicate_limit_ms,
            ),
        )
    } else {
        Ok(s.queue.len() as usize)
    }
}

/// The whole admission of a resolved request: [`precheck_spec`], then the
/// duration cap and the price.
pub open spec fn request_spec(
    s: PlayerView,
    policy: Policy,
    user: Seq<char>,
    is_moderator: bool,
    is_subscriber: bool,
    item: ItemView,
    last: Option<LastRequest>,
    wall_ms: u64,
    balance: i64,
) -> Result<(usize, i64), Refusal> {
    let p = item.track_id.0;
    let limits = limits_spec(
        s,
        item.track_id,
        user,
        is_moderator,
        policy.max_queue_length,
        policy.max_songs_per_user,
    );
    let price = policy.provider_spec(p).min_currency;
    if p == Provider::YouTube && !policy.youtube_support {
        Err(Refusal::YouTubeDisabled)
    } else if needs_subscriber(policy, p, is_moderator) && !is_subscriber {
        Err(Refusal::SubscribersOnly(p))
    } else if limits is Err {
        Err(limits->Err_0)
    } else if !is_moderator && last is Some && within_cooldown(
        last->0.when_ms,
        wall_ms,
        policy.duplicate_limit_ms,
    ) {
        Err(
            Refusal::Duplicate(
                last->0.when_ms,
                opt_str_view(last->0.user),
                policy.duplicate_limit_ms,
            ),
        )
    } else if item.duration_ms > policy.provider_spec(p).max_duration_ms {
        Err(Refusal::MaxDurationExceeded(p, policy.provider_spec(p).max_duration_ms))
    } else if price > 0 && balance < price {
        Err(Refusal::NotEnoughCurrency(balance, price))
    } else {
        Ok((s.queue.len() as usize, balance_after(balance, price) as i64))
    }
}

/// The mathematical form of the refusals of the limits check.
pub enum Refusal {
    YouTubeDisabled,
    SubscribersOnly(Provider),
    PlayerClosed(Option<Seq<char>>),
    QueueFull,
    QueueContainsTrack(int),
    TooManyUserTracks(u32),
    Duplicate(u64, Option<Seq<char>>, u64),
    MaxDurationExceeded(Provider, u64),
    NotEnoughCurrency(i64, i64),
}

pub open spec fn refusal_matches(e: AddTrackError, r: Refusal) -> bool {
    match (e, r) {
        (AddTrackError::PlayerClosed(a), Refusal::PlayerClosed(b)) => opt_str_view(a) == b,
        (AddTrackError::QueueFull, Refusal::QueueFull) => true,
        (AddTrackError::QueueContainsTrack(a), Refusal::QueueContainsTrack(b)) => a == b,
        (AddTrackError::TooManyUserTracks(a), Refusal::TooManyUserTracks(b)) => a == b,
        (AddTrackError::YouTubeDisabled, Refusal::YouTubeDisabled) => true,
        (AddTrackError::SubscribersOnly(a), Refusal::SubscribersOnly(b)) => a == b,
        (AddTrackError::Duplicate(w, u, l), Refusal::Duplicate(w2, u2, l2)) => w == w2 && opt_str_view(
            u,
        ) == u2 && l == l2,
        (AddTrackError::MaxDurationExceeded(p, m), Refusal::MaxDurationExceeded(p2, m2)) => p == p2
            && m == m2,
        (
            AddTrackError::NotEnoughCurrency { balance, required },
            Refusal::NotEnoughCurrency(b2, r2),
        ) => balance == b2 && required == r2,
        _ => false,
    }
}

/// How far into the loaded item playback is at `now`, in milliseconds.
pub open spec fn elapsed_spec(l: LoadedView, now: u64) -> nat {
    (l.offset_ms + if now > l.started_at_ms {
        now - l.started_at_ms
    } else {
        0
    }) as nat
}

/// What is left to play of the loaded item at `now`, in milliseconds.
pub open spec fn remaining_ms(l: LoadedView, now: u64) -> nat {
    let elapsed: int = if now > l.started_at_ms {
        now - l.started_at_ms
    } else {
        0
    };
    let played: int = l.offset_ms + elapsed;
    if played >= l.item.duration_ms {
        0
    } else {
        (l.item.duration_ms - played) as nat
    }
}

/// The wait, after `wait` milliseconds already counted, until the first item
/// of `q` requested by `user` plays, and that item.
pub open spec fn wait_in_queue(q: Seq<ItemView>, user: Seq<char>, wait: nat) -> Option<(nat, ItemView)>
    decreases q.len(),
{
    if q.len() == 0 {
        None
    } else if crate::queue::by_user(q[0], user) {
        Some((wait, q[0]))
    } else {
        wait_in_queue(q.drop_first(), user, wait + q[0].duration_ms as nat)
    }
}

/// How long until the next item requested by `user` plays, and that item:
/// zero when it is the loaded one.
pub open spec fn when_spec(s: PlayerView, user: Seq<char>, now: u64) -> Option<(nat, ItemView)> {
    match s.loaded {
        Some(l) => if crate::queue::by_user(l.item, user) {
            Some((0nat, l.item))
        } else {
            wait_in_queue(s.queue, user, remaining_ms(l, now))
        },
        None => wait_in_queue(s.queue, user, 0),
    }
}

/// Item count and total whole seconds of the loaded item and the queue,
/// each capped at its integer type's maximum.
pub open spec fn length_spec(s: PlayerView) -> (usize, u64) {
    let count: int = s.queue.len() + if s.loaded is Some {
        1int
    } else {
        0int
    };
    let ms: int = total_ms(s.queue) + match s.loaded {
        Some(l) => l.item.duration_ms as int,
        None => 0int,
    };
    let count: usize = if count > usize::MAX {
        usize::MAX
    } else {
        count as usize
    };
    let secs: u64 = if ms / 1000 > u64::MAX {
        u64::MAX
    } else {
        (ms / 1000) as u64
    };
    (count, secs)
}

proof fn lemma_total_ms_bound(s: Seq<ItemView>)
    ensures
        total_ms(s) <= s.len() * 0xffff_ffff_ffff_ffff,
    decreases s.len(),
{
    if s.len() > 0 {
        lemma_total_ms_bound(s.drop_last());
    }
}

} // verus!
