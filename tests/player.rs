use songbot::{
    AddTrackError, Command, Effect, Event, Item, LastRequest, Origin, Player, Policy, Provider,
    ProviderPolicy, Queue, TrackId,
};

fn item(id: &str, user: Option<&str>, secs: u64) -> Item {
    Item {
        track_id: TrackId::Spotify(id.to_string()),
        artists: vec!["Artist".to_string()],
        name: id.to_string(),
        user: user.map(|u| u.to_string()),
        duration_ms: secs * 1000,
    }
}

fn policy() -> Policy {
    let p = ProviderPolicy {
        subscriber_only: false,
        max_duration_ms: 600_000,
        min_currency: 0,
    };
    Policy {
        max_queue_length: 30,
        max_songs_per_user: 2,
        subscriber_only: false,
        youtube_support: false,
        duplicate_limit_ms: 0,
        spotify: p,
        youtube: p,
    }
}

/// Admits a request and commits it as if its record were stored.
fn submit(
    p: &mut Player,
    pol: &Policy,
    user: &str,
    is_moderator: bool,
    is_subscriber: bool,
    item: Item,
    last: &Option<LastRequest>,
    wall_ms: u64,
    balance: i64,
    now: u64,
    pick: usize,
) -> (Result<(usize, i64), AddTrackError>, Vec<Effect>) {
    match p.request(pol, user, is_moderator, is_subscriber, &item, last, wall_ms, balance) {
        Ok((_, left)) => {
            let price = if item.track_id.is_youtube() { pol.youtube.min_currency } else { pol.spotify.min_currency };
            let (r, balance, fx) = p.commit_track(item, true, left, price, now, pick);
            (r.map(|pos| (pos, balance)), fx)
        }
        Err(e) => (Err(e), Vec::new()),
    }
}

fn player(queue: Vec<Item>, fallback: Vec<Item>, paused: bool) -> Player {
    Player::new(Queue::from_items(queue), fallback, paused, None, true)
}

#[test]
fn basic_enqueue_loads_the_request() {
    let mut p = player(vec![], vec![], false);
    let a = item("A", Some("u1"), 180);
    let (r, fx) = submit(&mut p, &policy(), "u1", false, false, a.clone(), &None, 0, 0, 10, 0);
    assert_eq!(Ok((0, 0)), r);
    assert_eq!(
        vec![
            Effect::RemoveRecord(TrackId::Spotify("A".to_string())),
            Effect::Load(a.clone(), 0),
            Effect::Play,
            Effect::Broadcast(Event::Playing(true, Origin::Queue, a.clone())),
            Effect::CurrentSong(Some(a.clone()), false),
            Effect::Broadcast(Event::Modified),
        ],
        fx
    );
    assert_eq!(Some(a), p.current());
    assert_eq!(Some(Origin::Queue), p.current_origin());
}

#[test]
fn duplicate_request_is_refused_without_events() {
    let a = item("A", Some("u1"), 180);
    let mut p = player(vec![a.clone()], vec![], true);
    let (r, fx) = submit(&mut p, &policy(), "u2", false, false, item("A", Some("u2"), 180), &None, 0, 0, 10, 0);
    assert_eq!(Err(AddTrackError::QueueContainsTrack(0)), r);
    assert!(fx.is_empty());
    assert_eq!(1, p.queue().len());
}

#[test]
fn theme_injection_sidelines_and_resumes() {
    let a = item("A", None, 180);
    let mut p = player(vec![a.clone()], vec![], true);
    p.command(Command::Play, 0, 0);
    let intro = item("intro", None, 20);
    let fx = p.command(Command::Inject(intro.clone(), 5_000), 30_000, 0);
    assert_eq!(
        vec![
            Effect::Load(intro.clone(), 5_000),
            Effect::Play,
            Effect::Broadcast(Event::Playing(true, Origin::Injected, intro.clone())),
            Effect::CurrentSong(Some(intro), false),
        ],
        fx
    );
    let fx = p.song_ended(45_000, 0);
    assert_eq!(Effect::Load(a.clone(), 30_000), fx[0]);
    assert_eq!(Effect::Broadcast(Event::Playing(true, Origin::Queue, a.clone())), fx[2]);
    assert_eq!(Some(Origin::Queue), p.current_origin());
}

#[test]
fn subscribers_only_refuses_non_subscribers() {
    let mut pol = policy();
    pol.subscriber_only = true;
    let mut p = player(vec![], vec![], true);
    let (r, fx) = submit(&mut p, &pol, "u3", false, false, item("B", Some("u3"), 60), &None, 0, 0, 0, 0);
    assert_eq!(Err(AddTrackError::SubscribersOnly(Provider::Spotify)), r);
    assert!(fx.is_empty());
    assert!(p.queue().is_empty());
    let (r, _) = submit(&mut p, &pol, "u3", false, true, item("B", Some("u3"), 60), &None, 0, 0, 0, 0);
    assert_eq!(Ok((0, 0)), r);
}

#[test]
fn volume_is_clamped() {
    let mut p = Player::new(Queue::new(), vec![], true, Some(90), true);
    assert_eq!(90, p.current_volume());
    let v = songbot::volume_argument(p.current_volume(), "+25").unwrap();
    assert_eq!(vec![Effect::Volume(100)], p.command(Command::Volume(v), 0, 0));
    assert_eq!(100, p.current_volume());
    let v = songbot::volume_argument(p.current_volume(), "-1000").unwrap();
    assert_eq!(vec![Effect::Volume(0)], p.command(Command::Volume(v), 0, 0));
    assert_eq!(0, p.current_volume());
    p.command(Command::Volume(250), 0, 0);
    assert_eq!(100, p.current_volume());
}

#[test]
fn fallback_plays_after_last_queue_item() {
    let f1 = item("F1", None, 100);
    let f2 = item("F2", None, 100);
    let mut p = player(vec![item("A", None, 10)], vec![f1.clone(), f2.clone()], false);
    p.command(Command::Modified, 0, 0);
    let fx = p.song_ended(10_000, 1);
    assert_eq!(Effect::Load(f2.clone(), 0), fx[0]);
    assert!(!fx.contains(&Effect::Broadcast(Event::Empty)));
    assert_eq!(Some(Origin::Fallback), p.current_origin());
    let fx = p.handle(Command::Skip, 20_000);
    let cur = p.current().unwrap();
    assert!(cur == f1 || cur == f2);
    assert!(!fx.contains(&Effect::Broadcast(Event::Empty)));
}

#[test]
fn purge_while_playing_keeps_current() {
    let w = item("W", None, 60);
    let mut p = player(vec![w.clone()], vec![], false);
    p.command(Command::Modified, 0, 0);
    for id in ["X", "Y", "Z"] {
        let (r, _) = submit(&mut p, &policy(), id, false, false, item(id, Some(id), 60), &None, 0, 0, 0, 0);
        assert!(r.is_ok());
    }
    let (purged, fx) = p.purge(1_000, 0);
    assert_eq!(3, purged.len());
    assert_eq!(vec![Effect::PurgeRecords, Effect::Broadcast(Event::Modified)], fx);
    assert!(p.queue().is_empty());
    assert_eq!(Some(w), p.current());
    let fx = p.song_ended(60_000, 0);
    assert_eq!(
        vec![
            Effect::Broadcast(Event::Empty),
            Effect::Stop,
            Effect::CurrentSong(None, true),
        ],
        fx
    );
    assert_eq!(None, p.current());
}

#[test]
fn purge_then_length_is_zero() {
    let mut p = player(vec![item("A", None, 60), item("B", None, 90)], vec![], true);
    assert_eq!((2, 150), p.length());
    p.purge(0, 0);
    assert_eq!((0, 0), p.length());
}

#[test]
fn length_counts_current() {
    let mut p = player(vec![item("A", None, 61), item("B", None, 90)], vec![], false);
    p.command(Command::Modified, 0, 0);
    assert_eq!((2, 151), p.length());
    assert_eq!(2, p.list().len());
}

#[test]
fn fallback_needs_play_from_rest() {
    let mut p = player(vec![], vec![item("F1", None, 100)], true);
    for c in [Command::Skip, Command::Pause, Command::Modified, Command::Volume(10)] {
        p.command(c, 0, 0);
        assert_eq!(None, p.current());
    }
    p.command(Command::Toggle, 0, 0);
    assert_eq!(Some(Origin::Fallback), p.current_origin());
}

#[test]
fn pause_twice_is_pause_once() {
    let mut p = player(vec![item("A", None, 60)], vec![], false);
    p.command(Command::Modified, 0, 0);
    let fx = p.command(Command::Pause, 0, 0);
    assert_eq!(Effect::Pause, fx[0]);
    assert_eq!(Effect::Broadcast(Event::Pausing), fx[1]);
    assert!(p.command(Command::Pause, 0, 0).is_empty());
    assert!(p.is_paused());
    let fx = p.command(Command::Play, 0, 0);
    assert_eq!(Effect::Play, fx[0]);
    assert!(p.command(Command::Play, 0, 0).is_empty());
}

#[test]
fn close_and_open() {
    let mut p = player(vec![], vec![], true);
    p.close(Some("first".to_string()));
    p.close(Some("later".to_string()));
    assert_eq!(&Some(Some("later".to_string())), p.closed());
    let (r, _) = submit(&mut p, &policy(), "u", false, false, item("A", Some("u"), 60), &None, 0, 0, 0, 0);
    assert_eq!(Err(AddTrackError::PlayerClosed(Some("later".to_string()))), r);
    let (r, _) = submit(&mut p, &policy(), "m", true, false, item("A", Some("m"), 60), &None, 0, 0, 0, 0);
    assert_eq!(Ok((0, 0)), r);
    p.open();
    p.open();
    assert_eq!(&None, p.closed());
}

#[test]
fn promote_swaps_with_head() {
    let (a, b, c, d) = (item("A", None, 1), item("B", None, 1), item("C", None, 1), item("D", None, 1));
    let mut p = player(vec![a.clone(), b.clone(), c.clone(), d.clone()], vec![], true);
    let (r, fx) = p.promote_song("mod", 2, 0, 0);
    assert_eq!(Some(c.clone()), r);
    assert_eq!(
        vec![
            Effect::PromoteRecord("mod".to_string(), TrackId::Spotify("C".to_string())),
            Effect::Broadcast(Event::Modified),
        ],
        fx
    );
    assert_eq!(vec![c, b, a, d], p.queue().list());
    let (r, fx) = p.promote_song("mod", 4, 0, 0);
    assert_eq!(None, r);
    assert!(fx.is_empty());
}

#[test]
fn removals() {
    let mut p = player(
        vec![item("A", Some("x"), 1), item("B", Some("y"), 1), item("C", Some("x"), 1)],
        vec![],
        true,
    );
    let (r, fx) = p.remove_last_by_user("x", 0, 0);
    assert_eq!(Some(item("C", Some("x"), 1)), r);
    assert_eq!(
        vec![
            Effect::RemoveRecord(TrackId::Spotify("C".to_string())),
            Effect::Broadcast(Event::Modified),
        ],
        fx
    );
    let (r, fx) = p.remove_at(2, 0, 0);
    assert_eq!(None, r);
    assert!(fx.is_empty());
    let (r, _) = p.remove_last(0, 0);
    assert_eq!(Some(item("B", Some("y"), 1)), r);
    let (r, _) = p.remove_at(0, 0, 0);
    assert_eq!(Some(item("A", Some("x"), 1)), r);
    let (r, fx) = p.remove_last(0, 0);
    assert_eq!(None, r);
    assert!(fx.is_empty());
}

#[test]
fn admission_refusals() {
    let mut pol = policy();
    pol.max_queue_length = 1;
    pol.max_songs_per_user = 1;
    pol.duplicate_limit_ms = 60_000;
    pol.spotify.max_duration_ms = 100_000;
    pol.spotify.min_currency = 50;
    let mut p = player(vec![item("A", Some("u"), 1), item("B", None, 1)], vec![], true);
    let (r, _) = submit(&mut p, &pol, "v", false, false, item("C", Some("v"), 1), &None, 0, 100, 0, 0);
    assert_eq!(Err(AddTrackError::QueueFull), r);
    pol.max_queue_length = 10;
    let (r, _) = submit(&mut p, &pol, "u", false, false, item("C", Some("u"), 1), &None, 0, 100, 0, 0);
    assert_eq!(Err(AddTrackError::TooManyUserTracks(1)), r);
    let last = Some(LastRequest { when_ms: 1_000, user: Some("w".to_string()) });
    let (r, _) = submit(&mut p, &pol, "v", false, false, item("C", Some("v"), 1), &last, 30_000, 100, 0, 0);
    assert_eq!(Err(AddTrackError::Duplicate(1_000, Some("w".to_string()), 60_000)), r);
    let (r, _) = submit(&mut p, &pol, "v", false, false, item("C", Some("v"), 200), &last, 61_000, 100, 0, 0);
    assert_eq!(Err(AddTrackError::MaxDurationExceeded(Provider::Spotify, 100_000)), r);
    let (r, _) = submit(&mut p, &pol, "v", false, false, item("C", Some("v"), 60), &last, 61_000, 20, 0, 0);
    assert_eq!(Err(AddTrackError::NotEnoughCurrency { balance: 20, required: 50 }), r);
    let yt = Item { track_id: TrackId::YouTube("abc".to_string()), ..item("C", Some("v"), 60) };
    let (r, _) = submit(&mut p, &pol, "v", false, false, yt, &None, 0, 100, 0, 0);
    assert_eq!(Err(AddTrackError::YouTubeDisabled), r);
    let (r, _) = submit(&mut p, &pol, "v", false, false, item("C", Some("v"), 60), &last, 61_000, 100, 0, 0);
    assert_eq!(Ok((2, 50)), r);
    assert_eq!(3, p.queue().len());
}

#[test]
fn restore_skips_unresolved_records() {
    let q = Queue::restore(vec![Some(item("A", None, 1)), None, Some(item("C", None, 1))]);
    assert_eq!(vec![item("A", None, 1), item("C", None, 1)], q.list());
}

#[test]
fn when_counts_remaining_time() {
    let mut p = player(
        vec![item("A", Some("x"), 60), item("B", Some("y"), 30), item("C", Some("z"), 20)],
        vec![],
        false,
    );
    p.command(Command::Modified, 0, 0);
    assert_eq!(Some((0, item("A", Some("x"), 60))), p.when("x", 10_000));
    assert_eq!(Some((50_000, item("B", Some("y"), 30))), p.when("y", 10_000));
    assert_eq!(Some((80_000, item("C", Some("z"), 20))), p.when("z", 10_000));
    assert_eq!(None, p.when("w", 10_000));
    assert_eq!(Some((30_000, item("C", Some("z"), 20))), p.when("z", 100_000));
}

#[test]
fn theme_plays_from_its_offset() {
    let mut p = player(vec![], vec![], false);
    let theme = songbot::Theme {
        name: "intro".to_string(),
        track_id: TrackId::Spotify("T".to_string()),
        offset_ms: 5_000,
        end_ms: None,
    };
    let (r, fx) = p.play_theme(&theme, None, 0, 0);
    assert_eq!(Err(songbot::PlayThemeError::Error), r);
    assert!(fx.is_empty());
    assert_eq!(None, p.current());
    let meta = songbot::TrackMeta { artists: vec!["Artist".to_string()], name: "T".to_string(), duration_ms: 30_000 };
    let (r, fx) = p.play_theme(&theme, Some(meta), 0, 0);
    assert_eq!(Ok(()), r);
    assert_eq!(Effect::Load(item("T", None, 30), 5_000), fx[0]);
    assert_eq!(Some(Origin::Injected), p.current_origin());
    assert_eq!(Some(5_000), p.elapsed_ms(0));
    assert_eq!(Some(7_500), p.elapsed_ms(2_500));
}

#[test]
fn failed_store_leaves_queue_and_refunds() {
    let mut p = player(vec![], vec![], true);
    let mut pol = policy();
    pol.spotify.min_currency = 60;
    let a = item("A", Some("u"), 60);
    let (pos, left) = p.request(&pol, "u", false, false, &a, &None, 0, 100).unwrap();
    assert_eq!((0, 40), (pos, left));
    assert!(p.queue().is_empty());
    let (r, balance, fx) = p.commit_track(a.clone(), false, left, 60, 0, 0);
    assert_eq!(Err(AddTrackError::Error), r);
    assert_eq!(100, balance);
    assert!(fx.is_empty());
    assert!(p.queue().is_empty());
    let (r, balance, _) = p.commit_track(a, true, left, 60, 0, 0);
    assert_eq!(Ok(0), r);
    assert_eq!(40, balance);
    assert_eq!(1, p.queue().len());
    assert_eq!(Ok(1), p.add_track("v", &item("B", Some("v"), 1), false, 30, 2));
}

#[test]
fn precheck_runs_before_resolving() {
    let a = item("A", Some("u1"), 180);
    let mut p = player(vec![a], vec![], true);
    let pol = policy();
    assert_eq!(
        Err(AddTrackError::QueueContainsTrack(0)),
        p.precheck(&pol, "u2", false, false, &TrackId::Spotify("A".to_string()), &None, 0)
    );
    assert_eq!(
        Err(AddTrackError::YouTubeDisabled),
        p.precheck(&pol, "u2", false, false, &TrackId::YouTube("B".to_string()), &None, 0)
    );
    assert_eq!(Ok(1), p.precheck(&pol, "u2", false, false, &TrackId::Spotify("B".to_string()), &None, 0));
    p.close(None);
    assert_eq!(
        Err(AddTrackError::PlayerClosed(None)),
        p.precheck(&pol, "u2", false, false, &TrackId::Spotify("B".to_string()), &None, 0)
    );
}
