use vstd::prelude::*;

use crate::admission::first_match;
use crate::engine::{
    command_spec, length_spec, limits_spec, load_front_spec, next_song_spec, request_spec,
    resume_offset, CommandView, EffectView, LoadedView, PlayerView, SidelinedView, fresh,
};
use crate::queue::{resolved_views, swapped, unique_tracks};
use crate::track::{Item, ItemView, Origin};

verus! {

broadcast use vstd::seq_lib::group_to_multiset_ensures;

/// A track admitted by the limits check is not in the queue yet, so adding
/// it keeps every track in the queue unique.
pub proof fn lemma_add_keeps_tracks_unique(
    s: PlayerView,
    item: ItemView,
    user: Seq<char>,
    is_moderator: bool,
    max_queue_length: u32,
    max_songs_per_user: u32,
)
    requires
        unique_tracks(s.queue),
        limits_spec(s, item.track_id, user, is_moderator, max_queue_length, max_songs_per_user) is Ok,
    ensures
        unique_tracks(s.queue.push(item)),
{
    assert forall|i: int| 0 <= i < s.queue.len() implies #[trigger] s.queue[i].track_id
        != item.track_id by {
        if s.queue[i].track_id == item.track_id {
            assert(crate::admission::contains_track(s.queue, item.track_id));
        }
    }
    let q = s.queue.push(item);
    assert forall|i: int, j: int|
        0 <= i < q.len() && 0 <= j < q.len() && i != j implies #[trigger] q[i].track_id
        != #[trigger] q[j].track_id by {
        if i < s.queue.len() && j < s.queue.len() {
            assert(s.queue[i].track_id != s.queue[j].track_id);
        } else if i < s.queue.len() {
            assert(s.queue[i].track_id != item.track_id);
        } else {
            assert(s.queue[j].track_id != item.track_id);
        }
    }
}

/// A request that is admitted keeps every track in the queue unique.
pub proof fn lemma_request_keeps_tracks_unique(
    s: PlayerView,
    policy: crate::admission::Policy,
    user: Seq<char>,
    is_moderator: bool,
    is_subscriber: bool,
    item: ItemView,
    last: Option<crate::admission::LastRequest>,
    wall_ms: u64,
    balance: i64,
)
    requires
        unique_tracks(s.queue),
        request_spec(s, policy, user, is_moderator, is_subscriber, item, last, wall_ms, balance) is Ok,
    ensures
        unique_tracks(s.queue.push(item)),
{
    lemma_add_keeps_tracks_unique(
        s,
        item,
        user,
        is_moderator,
        policy.max_queue_length,
        policy.max_songs_per_user,
    );
}

/// A volume command stores the requested volume clamped to `[0, 100]` and
/// hands the device that same clamped value.
pub proof fn lemma_volume_clamped(s: PlayerView, v: u32, now: u64, pick: usize)
    ensures
        ({
            let c: u32 = if v > 100 {
                100
            } else {
                v
            };
            let (s1, fx) = command_spec(s, CommandView::Volume(v), now, pick);
            &&& s1.volume <= 100
            &&& s1.volume == c
            &&& fx == seq![EffectView::Volume(c)]
        }),
{
}

/// A sidelined item never resumes before the offset it had been loaded at.
pub proof fn lemma_resume_not_before_sideline(e: SidelinedView)
    ensures
        resume_offset(e) >= e.loaded.offset_ms,
{
}

/// With nothing to inject, advancing resumes the most recently sidelined item
/// with its origin, at an offset no smaller than the one it had.
pub proof fn lemma_advance_resumes_sidelined(s: PlayerView, now: u64, pick: usize)
    requires
        s.inject is None,
        s.sidelined.len() > 0,
    ensures
        ({
            let (s1, next, fx) = next_song_spec(s, now, pick);
            let e = s.sidelined.last();
            &&& next == Some(fresh(e.loaded.origin, e.loaded.item, now, resume_offset(e)))
            &&& resume_offset(e) >= e.loaded.offset_ms
            &&& s1.sidelined == s.sidelined.drop_last()
        }),
{
}

/// Injecting pushes the loaded item, if any, aside and loads the injected
/// one in its place: one item is loaded at a time.
pub proof fn lemma_inject_sidelines_current(
    s: PlayerView,
    item: ItemView,
    offset: u64,
    now: u64,
    pick: usize,
)
    ensures
        ({
            let (s1, fx) = command_spec(s, CommandView::Inject(item, offset), now, pick);
            &&& s1.loaded == Some(fresh(Origin::Injected, item, now, offset))
            &&& s1.inject is None
            &&& s1.sidelined == match s.loaded {
                Some(l) => s.sidelined.push(SidelinedView { loaded: l, paused_at_ms: now }),
                None => s.sidelined,
            }
        }),
{
}

proof fn lemma_update_to_multiset<A>(s: Seq<A>, i: int, a: A)
    requires
        0 <= i < s.len(),
    ensures
        s.update(i, a).to_multiset() == s.to_multiset().remove(s[i]).insert(a),
{
    assert(s.update(i, a) =~= s.remove(i).insert(i, a));
    vstd::seq_lib::to_multiset_insert(s.remove(i), i, a);
    vstd::seq_lib::to_multiset_remove(s, i);
}

/// Promoting position `n` swaps it with the head: the same items, the two
/// positions exchanged, every other position unchanged.
pub proof fn lemma_promote_is_swap(q: Seq<ItemView>, n: int)
    requires
        0 <= n < q.len(),
    ensures
        swapped(q, n).to_multiset() == q.to_multiset(),
        swapped(q, n).len() == q.len(),
        swapped(q, n)[0] == q[n],
        swapped(q, n)[n] == q[0],
        forall|k: int| 0 <= k < q.len() && k != 0 && k != n ==> #[trigger] swapped(q, n)[k] == q[k],
{
    if n > 0 {
        let t = q.update(0, q[n]);
        lemma_update_to_multiset(q, 0, q[n]);
        lemma_update_to_multiset(t, n, q[0]);
        assert(t[n] == q[n]);
        let m = q.to_multiset();
        assert(m.remove(q[0]).insert(q[n]).remove(q[n]).insert(q[0]) =~= m);
    } else {
        assert(swapped(q, n) =~= q);
    }
}

/// At rest: paused, nothing loaded, sidelined or pending, and an empty queue.
pub open spec fn at_rest(s: PlayerView) -> bool {
    &&& s.paused
    &&& s.loaded is None
    &&& s.sidelined.len() == 0
    &&& s.inject is None
    &&& s.queue.len() == 0
}

/// From rest, no command but `Play` (or `Toggle`, which then means `Play`)
/// loads a fallback track; any command but those and `Inject` leaves the
/// player at rest.
pub proof fn lemma_fallback_needs_play(s: PlayerView, c: CommandView, now: u64, pick: usize)
    requires
        at_rest(s),
        !(c is Play),
        !(c is Toggle),
    ensures
        ({
            let (s1, fx) = command_spec(s, c, now, pick);
            &&& !(s1.loaded matches Some(l) && l.origin == Origin::Fallback)
            &&& !(c is Inject) ==> at_rest(s1)
        }),
{
}

/// Closing twice is closing with the second reason; opening twice is opening.
pub proof fn lemma_close_open_idempotent(
    s: PlayerView,
    r1: Option<Seq<char>>,
    r2: Option<Seq<char>>,
)
    ensures
        (PlayerView { closed: Some(r2), ..PlayerView { closed: Some(r1), ..s } }) == (PlayerView {
            closed: Some(r2),
            ..s
        }),
        (PlayerView { closed: None, ..PlayerView { closed: None, ..s } }) == (PlayerView {
            closed: None,
            ..s
        }),
{
}

/// A second `Pause` changes nothing and does nothing.
pub proof fn lemma_pause_idempotent(s: PlayerView, now: u64, pick: usize)
    ensures
        ({
            let (s1, fx1) = command_spec(s, CommandView::Pause, now, pick);
            let (s2, fx2) = command_spec(s1, CommandView::Pause, now, pick);
            &&& s2 == s1
            &&& fx2.len() == 0
        }),
{
}

/// A second `Play` changes nothing and does nothing: one playback starts.
pub proof fn lemma_play_idempotent(s: PlayerView, now: u64, pick: usize, now2: u64, pick2: usize)
    ensures
        ({
            let (s1, fx1) = command_spec(s, CommandView::Play, now, pick);
            let (s2, fx2) = command_spec(s1, CommandView::Play, now2, pick2);
            s1.loaded is Some || !s1.paused ==> s2 == s1 && fx2.len() == 0
        }),
{
}

/// After a purge, whatever the resulting queue change did, a player with
/// nothing loaded has length zero.
pub proof fn lemma_purge_then_length(s: PlayerView, now: u64, pick: usize)
    ensures
        ({
            let purged = PlayerView { queue: Seq::empty(), ..s };
            let (s1, fx) = command_spec(purged, CommandView::Modified, now, pick);
            &&& purged.loaded is None ==> length_spec(purged) == (0usize, 0u64)
            &&& s1.loaded is None ==> length_spec(s1) == (0usize, 0u64)
        }),
{
    let purged = PlayerView { queue: Seq::empty(), ..s };
    assert(crate::queue::total_ms(Seq::<ItemView>::empty()) == 0);
    let (s1, fx) = command_spec(purged, CommandView::Modified, now, pick);
    assert(s1.queue.len() == 0);
}


/// An appended record that resolves again after a restart comes back at the
/// back of the queue, after everything appended before it, and restoring
/// does not disturb the relative order of the earlier records.
pub proof fn lemma_append_survives_restart(records: Seq<Option<Item>>, item: Item)
    ensures
        resolved_views(records.push(Some(item))) == resolved_views(records).push(item@),
{
    assert(records.push(Some(item)).drop_last() =~= records);
}

/// When every record resolves, restoring gives back each item at its own
/// position.
pub proof fn lemma_restore_keeps_positions(records: Seq<Option<Item>>)
    requires
        forall|i: int| 0 <= i < records.len() ==> #[trigger] records[i] is Some,
    ensures
        resolved_views(records).len() == records.len(),
        forall|i: int|
            0 <= i < records.len() ==> #[trigger] resolved_views(records)[i] == records[i]->0@,
    decreases records.len(),
{
    if records.len() > 0 {
        let init = records.drop_last();
        assert forall|i: int| 0 <= i < init.len() implies #[trigger] init[i] is Some by {
            assert(init[i] == records[i]);
        }
        lemma_restore_keeps_positions(init);
    }
}


/// The invariant of the engine between two operations: the volume is in
/// `[0, 100]`, no injection is pending, and no two queued items share a
/// track.
pub open spec fn well_formed(s: PlayerView) -> bool {
    &&& s.volume <= 100
    &&& s.inject is None
    &&& unique_tracks(s.queue)
}

proof fn lemma_unique_subsequences(q: Seq<ItemView>)
    requires
        unique_tracks(q),
    ensures
        q.len() > 0 ==> unique_tracks(q.drop_first()),
        q.len() > 0 ==> unique_tracks(q.drop_last()),
        forall|i: int| 0 <= i < q.len() ==> unique_tracks(#[trigger] q.remove(i)),
        forall|n: int| 0 <= n < q.len() ==> unique_tracks(#[trigger] swapped(q, n)),
{
    if q.len() > 0 {
        let d = q.drop_first();
        assert forall|i: int, j: int|
            0 <= i < d.len() && 0 <= j < d.len() && i != j implies #[trigger] d[i].track_id
            != #[trigger] d[j].track_id by {
            assert(d[i] == q[i + 1] && d[j] == q[j + 1]);
        }
        let l = q.drop_last();
        assert forall|i: int, j: int|
            0 <= i < l.len() && 0 <= j < l.len() && i != j implies #[trigger] l[i].track_id
            != #[trigger] l[j].track_id by {
            assert(l[i] == q[i] && l[j] == q[j]);
        }
    }
    assert forall|k: int| 0 <= k < q.len() implies unique_tracks(#[trigger] q.remove(k)) by {
        let r = q.remove(k);
        assert forall|i: int, j: int|
            0 <= i < r.len() && 0 <= j < r.len() && i != j implies #[trigger] r[i].track_id
            != #[trigger] r[j].track_id by {
            let a = if i < k {
                i
            } else {
                i + 1
            };
            let b = if j < k {
                j
            } else {
                j + 1
            };
            assert(r[i] == q[a] && r[j] == q[b]);
        }
    }
    assert forall|n: int| 0 <= n < q.len() implies unique_tracks(#[trigger] swapped(q, n)) by {
        let w = swapped(q, n);
        assert forall|i: int, j: int|
            0 <= i < w.len() && 0 <= j < w.len() && i != j implies #[trigger] w[i].track_id
            != #[trigger] w[j].track_id by {
            let a = if i == 0 {
                n
            } else if i == n {
                0
            } else {
                i
            };
            let b = if j == 0 {
                n
            } else if j == n {
                0
            } else {
                j
            };
            assert(w[i] == q[a] && w[j] == q[b]);
        }
    }
}

proof fn lemma_load_front_well_formed(s: PlayerView, now: u64, pick: usize)
    requires
        s.volume <= 100,
        unique_tracks(s.queue),
    ensures
        well_formed(load_front_spec(s, now, pick).0),
{
    lemma_unique_subsequences(s.queue);
}

/// Every command keeps the engine well formed.
pub proof fn lemma_command_keeps_well_formed(s: PlayerView, c: CommandView, now: u64, pick: usize)
    requires
        well_formed(s),
    ensures
        well_formed(command_spec(s, c, now, pick).0),
{
    lemma_unique_subsequences(s.queue);
    match c {
        CommandView::Inject(item, offset) => {
            lemma_load_front_well_formed(
                PlayerView { inject: Some((item, offset)), ..s },
                now,
                pick,
            );
        },
        CommandView::Play => {
            lemma_load_front_well_formed(PlayerView { paused: false, ..s }, now, pick);
        },
        CommandView::Toggle => {
            lemma_load_front_well_formed(PlayerView { paused: false, ..s }, now, pick);
        },
        _ => {
            lemma_load_front_well_formed(s, now, pick);
        },
    }
}

/// Removing, promoting and purging keep the tracks in the queue unique.
pub proof fn lemma_queue_edits_keep_tracks_unique(q: Seq<ItemView>, i: int)
    requires
        unique_tracks(q),
        0 <= i < q.len(),
    ensures
        unique_tracks(q.remove(i)),
        unique_tracks(swapped(q, i)),
        unique_tracks(q.drop_last()),
        unique_tracks(Seq::<ItemView>::empty()),
{
    lemma_unique_subsequences(q);
}


/// Advancing leaves exactly the freshly loaded item loaded, or nothing: an
/// item loaded before is pushed aside when an injection takes its place and
/// is otherwise let go. The first load effect names the newly loaded item.
pub proof fn lemma_advance_loads_one(s: PlayerView, now: u64, pick: usize)
    ensures
        ({
            let (s1, fx) = load_front_spec(s, now, pick);
            &&& s1.loaded matches Some(l) ==> l.started_at_ms == now && (fx[0] == EffectView::Load(
                l.item,
                l.offset_ms,
            ) || (fx[0] is RemoveRecord && fx[1] == EffectView::Load(l.item, l.offset_ms)))
            &&& s1.loaded is None ==> fx == seq![
                EffectView::Broadcast(crate::engine::EventView::Empty),
                EffectView::Stop,
                EffectView::CurrentSong(None, s1.paused),
            ]
            &&& s.inject is Some && s.loaded is Some ==> s1.sidelined == s.sidelined.push(
                SidelinedView { loaded: s.loaded->0, paused_at_ms: now },
            )
            &&& s.inject is None ==> s1.sidelined.len() <= s.sidelined.len()
        }),
{
}

/// From rest, advancing loads nothing, makes no load effect and stays paused.
pub proof fn lemma_rest_advance_loads_nothing(s: PlayerView, now: u64, pick: usize)
    requires
        at_rest(s),
    ensures
        ({
            let (s1, next, fx) = next_song_spec(s, now, pick);
            &&& next is None
            &&& fx.len() == 0
            &&& s1.paused
        }),
{
}

/// A queue item pushed aside at offset 0 resumes with its origin at the
/// time it had played.
pub proof fn lemma_theme_resume(s: PlayerView, now: u64, pick: usize)
    requires
        s.inject is None,
        s.sidelined.len() == 1,
        s.sidelined[0].loaded.origin == Origin::Queue,
        s.sidelined[0].loaded.offset_ms == 0,
        s.sidelined[0].paused_at_ms >= s.sidelined[0].loaded.started_at_ms,
    ensures
        ({
            let e = s.sidelined[0];
            let played = (e.paused_at_ms - e.loaded.started_at_ms) as u64;
            let (s1, next, fx) = next_song_spec(s, now, pick);
            &&& next == Some(fresh(Origin::Queue, e.loaded.item, now, played))
            &&& s1.sidelined.len() == 0
            &&& fx == seq![EffectView::Load(e.loaded.item, played)]
        }),
{
}

/// Playing with nothing queued, sidelined or injected, advancing loads a
/// pool item with origin `Fallback` and starts it, without an `Empty` event.
pub proof fn lemma_fallback_scenario(s: PlayerView, now: u64, pick: usize)
    requires
        !s.paused,
        s.inject is None,
        s.sidelined.len() == 0,
        s.queue.len() == 0,
        s.fallback.len() > 0,
    ensures
        ({
            let (s1, fx) = load_front_spec(s, now, pick);
            let f = s.fallback[(pick as int) % (s.fallback.len() as int)];
            &&& s.fallback.contains(f)
            &&& s1.loaded == Some(fresh(Origin::Fallback, f, now, 0))
            &&& fx == seq![
                EffectView::Load(f, 0),
                EffectView::Play,
                EffectView::Broadcast(crate::engine::EventView::Playing(s.echo, Origin::Fallback, f)),
                EffectView::CurrentSong(Some(f), false),
            ]
        }),
{
    let f = s.fallback[(pick as int) % (s.fallback.len() as int)];
    assert(s.fallback[(pick as int) % (s.fallback.len() as int)] == f);
}

/// When the last item ends with the queue purged: with an empty pool the
/// engine empties (Empty, Stop, blank current song); playing with a pool it
/// falls back.
pub proof fn lemma_end_after_purge(s: PlayerView, now: u64, pick: usize)
    requires
        s.inject is None,
        s.sidelined.len() == 0,
        s.queue.len() == 0,
        s.loaded is Some,
    ensures
        ({
            let (s1, fx) = load_front_spec(s, now, pick);
            &&& s.fallback.len() == 0 ==> s1.loaded is None && fx == seq![
                EffectView::Broadcast(crate::engine::EventView::Empty),
                EffectView::Stop,
                EffectView::CurrentSong(None, s1.paused),
            ]
            &&& s.fallback.len() > 0 ==> (s1.loaded matches Some(l) && l.origin == Origin::Fallback
                && s.fallback.contains(l.item))
        }),
{
    if s.fallback.len() > 0 {
        let f = s.fallback[(pick as int) % (s.fallback.len() as int)];
        assert(s.fallback[(pick as int) % (s.fallback.len() as int)] == f);
    }
}

} // verus!
