use songbot::{
    added_message, refusal_message, Provider,
    compact_time, display_songs, feedback_message, human_artists, lookup_theme,
    parse_queue_position, parse_track_id, route_request, search_result, volume_argument,
    AddTrackError, Cooldown, Event, Item, Origin, ParseTrackIdError, PlayThemeError, PositionError,
    RequestRoute, Theme, TrackId,
};

fn item(name: &str, artists: &[&str], user: Option<&str>, secs: u64) -> Item {
    Item {
        track_id: TrackId::Spotify(name.to_string()),
        artists: artists.iter().map(|a| a.to_string()).collect(),
        name: name.to_string(),
        user: user.map(|u| u.to_string()),
        duration_ms: secs * 1000,
    }
}

#[test]
fn what_lists_artists() {
    assert_eq!("\"Song\"", item("Song", &[], None, 1).what());
    assert_eq!("\"Song\" by A", item("Song", &["A"], None, 1).what());
    assert_eq!("\"Song\" by A and B", item("Song", &["A", "B"], None, 1).what());
    assert_eq!("\"Song\" by A, B and C", item("Song", &["A", "B", "C"], None, 1).what());
    assert_eq!(None, human_artists(&vec![]));
}

#[test]
fn durations_are_compact() {
    assert_eq!("4m32s", item("S", &[], None, 272).duration());
    assert_eq!("0s", compact_time(0));
    assert_eq!("1h", compact_time(3600));
    assert_eq!("1d1h1m1s", compact_time(90061));
    assert_eq!("4m32s", item("S", &[], None, 272).data(false).ok().unwrap().duration);
}

#[test]
fn data_decodes_html_names() {
    let d = item("Rock &amp; Roll", &["A"], Some("u"), 60).data(true).ok().unwrap();
    assert_eq!("Rock & Roll", d.name);
    assert_eq!(Some("A".to_string()), d.artists);
    let e = item("S", &["A", "B", "C"], None, 1).data(false).ok().unwrap();
    assert_eq!(Some("A, B and C".to_string()), e.artists);
    assert!(d.paused);
    assert!(item("Bad &nosuchentity;", &[], None, 1).data(false).is_err());
}

#[test]
fn queue_positions() {
    assert_eq!(Ok(0), parse_queue_position("1"));
    assert_eq!(Ok(4), parse_queue_position("5"));
    assert_eq!(Err(PositionError::Current), parse_queue_position("0"));
    assert_eq!(Err(PositionError::NotANumber), parse_queue_position("x"));
    assert_eq!(Err(PositionError::NotANumber), parse_queue_position(""));
}

#[test]
fn volume_arguments() {
    assert_eq!(Some(100), volume_argument(90, "+25"));
    assert_eq!(Some(0), volume_argument(90, "-1000"));
    assert_eq!(Some(40), volume_argument(90, "40"));
    assert_eq!(Some(100), volume_argument(90, "400"));
    assert_eq!(Some(80), volume_argument(90, "-10"));
    assert_eq!(None, volume_argument(90, "loud"));
    assert_eq!(None, volume_argument(90, "+"));
    assert_eq!(None, volume_argument(90, "99999999999"));
}

#[test]
fn listing_songs() {
    assert_eq!("Song queue is empty.", display_songs(&vec![], 3));
    let items = vec![
        item("A", &["X"], None, 1),
        item("B", &[], Some("u"), 1),
        item("C", &[], None, 1),
        item("D", &[], None, 1),
    ];
    assert_eq!(
        "#0: \"A\" by X; #1: \"B\" (u); #2: \"C\" ... and 1 more.",
        display_songs(&items, 3)
    );
    assert_eq!("#0: \"A\" by X.", display_songs(&items[..1].to_vec(), 3));
}

#[test]
fn feedback_messages() {
    let a = item("A", &["X"], Some("u"), 1);
    assert_eq!(
        Some("Now playing: \"A\" by X, requested by u.".to_string()),
        feedback_message(&Event::Playing(true, Origin::Queue, a.clone()), true)
    );
    assert_eq!(None, feedback_message(&Event::Playing(false, Origin::Queue, a.clone()), true));
    assert_eq!(None, feedback_message(&Event::Playing(true, Origin::Queue, a), false));
    assert_eq!(Some("Pausing playback.".to_string()), feedback_message(&Event::Pausing, true));
    assert_eq!(None, feedback_message(&Event::Pausing, false));
    assert!(feedback_message(&Event::Empty, false).is_some());
    assert_eq!(None, feedback_message(&Event::Modified, true));
}

#[test]
fn themes_and_routing() {
    let themes = vec![Theme {
        name: "intro".to_string(),
        track_id: TrackId::Spotify("T".to_string()),
        offset_ms: 5_000,
        end_ms: None,
    }];
    assert_eq!(5_000, lookup_theme(&themes, "intro").ok().unwrap().offset_ms);
    assert_eq!(Some(PlayThemeError::NoSuchTheme), lookup_theme(&themes, "outro").err());
    assert_eq!(RequestRoute::Search, route_request(parse_track_id("queen we will rock you")));
    assert_eq!(
        RequestRoute::Malformed(ParseTrackIdError::BadSpotifyId),
        route_request(parse_track_id("spotify:track:nope"))
    );
    assert_eq!(
        RequestRoute::Track(TrackId::Spotify("4uLU6hMCjMI75M1A2tKUQC".to_string())),
        route_request(parse_track_id("spotify:track:4uLU6hMCjMI75M1A2tKUQC"))
    );
    assert_eq!(Err(AddTrackError::NotFound), search_result(None));
}

#[test]
fn cooldown_lets_one_through_per_period() {
    let mut c = Cooldown::from_duration_ms(5_000);
    assert!(c.is_open(0));
    assert!(!c.is_open(4_999));
    assert!(c.is_open(5_000));
    assert_eq!(5_000, songbot::default_cooldown().period_ms);
}

#[test]
fn system_and_defaults() {
    let s = songbot::setup().unwrap();
    assert!(s.is_running());
    assert!(s.join().is_ok());
    let c = songbot::Config::new();
    assert_eq!(30, c.max_queue_length);
    assert_eq!(2, c.max_songs_per_user);
    assert!(c.echo_current_song);
    assert!(c.starts_paused());
}

#[test]
fn refusal_messages() {
    assert_eq!(
        "Player already contains that track (position #1).",
        refusal_message(&AddTrackError::QueueContainsTrack(0), "u", "coins", 0)
    );
    assert_eq!(
        "You must be a subscriber for Spotify requests, sorry :(",
        refusal_message(&AddTrackError::SubscribersOnly(Provider::Spotify), "u", "coins", 0)
    );
    assert_eq!(
        "<3 your enthusiasm, but you already have 3 tracks in the queue.",
        refusal_message(&AddTrackError::TooManyUserTracks(3), "u", "coins", 0)
    );
    assert_eq!(
        "closed for today",
        refusal_message(&AddTrackError::PlayerClosed(Some("closed for today".to_string())), "u", "c", 0)
    );
    assert_eq!(
        "That song was requested by you 1m ago, you have to wait at least 10m between duplicate requests!",
        refusal_message(
            &AddTrackError::Duplicate(1_000, Some("u".to_string()), 600_000),
            "u",
            "c",
            61_000
        )
    );
    assert_eq!(
        "You don't have enough coins to request songs. Need 60, but you have -5, sorry :(",
        refusal_message(&AddTrackError::NotEnoughCurrency { balance: -5, required: 60 }, "u", "coins", 0)
    );
}

#[test]
fn added_messages() {
    let a = item("A", &["X"], Some("u"), 1);
    assert_eq!("Added \"A\" by X at position #1!", added_message(&a, 0, None));
    assert_eq!(
        "Added \"A\" by X at position #3, here's your 5 coins!",
        added_message(&a, 2, Some((5, "coins")))
    );
}

#[test]
fn help_respects_cooldown() {
    let mut c = Cooldown::from_duration_ms(5_000);
    let first = songbot::request_help(&mut c, 0, Some("bad id :("), None).unwrap();
    assert!(first.starts_with("bad id :(. You can request a song from Spotify with !song request <search>"));
    assert!(first.contains("\"!song request queen we will rock you\""));
    assert_eq!(
        Some("bad id :(".to_string()),
        songbot::request_help(&mut c, 1_000, Some("bad id :("), None)
    );
    assert_eq!(None, songbot::request_help(&mut c, 1_000, None, None));
    let later = songbot::request_help(&mut c, 6_000, None, Some("!sr")).unwrap();
    assert!(later.starts_with("You can request a song from Spotify with !sr <search>"));
}

#[test]
fn default_policy() {
    let p = songbot::Policy::new(30, 2);
    assert_eq!(600_000, p.spotify.max_duration_ms);
    assert_eq!(60, p.youtube.min_currency);
    assert!(p.youtube.subscriber_only);
    assert!(!p.spotify.subscriber_only);
    assert!(!p.youtube_support);
    assert_eq!(
        Some("Player is detached!".to_string()),
        feedback_message(&Event::Detached, false)
    );
}

#[test]
fn track_ids_parse() {
    let spotify = TrackId::Spotify("4uLU6hMCjMI75M1A2tKUQC".to_string());
    assert_eq!(Ok(spotify.clone()), parse_track_id("spotify:track:4uLU6hMCjMI75M1A2tKUQC"));
    assert_eq!(
        Ok(spotify.clone()),
        parse_track_id("https://open.spotify.com/track/4uLU6hMCjMI75M1A2tKUQC?si=abc")
    );
    assert_eq!(Ok(spotify), parse_track_id("4uLU6hMCjMI75M1A2tKUQC"));
    let youtube = TrackId::YouTube("dQw4w9WgXcQ".to_string());
    assert_eq!(Ok(youtube.clone()), parse_track_id("https://www.youtube.com/watch?v=dQw4w9WgXcQ&t=1"));
    assert_eq!(Ok(youtube.clone()), parse_track_id("https://youtu.be/dQw4w9WgXcQ"));
    assert_eq!(Ok(youtube), parse_track_id("youtube:video:dQw4w9WgXcQ"));
    assert_eq!(Err(ParseTrackIdError::BadYouTubeId), parse_track_id("https://youtu.be/short"));
    assert_eq!(Err(ParseTrackIdError::BadSpotifyId), parse_track_id("https://open.spotify.com/track/"));
    assert_eq!(Err(ParseTrackIdError::MissingUriPrefix), parse_track_id(""));
    assert_eq!(Err(ParseTrackIdError::MissingUriPrefix), parse_track_id("we will rock you"));
}
