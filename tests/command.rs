use songbot::{
    current_message, volume_message,
    command_error_message, length_message, malformed_message, parse_song_command,
    promoted_message, removed_message, when_message, Item, ParseTrackIdError, PositionError,
    SongCommand, SongCommandError, TrackId,
};

fn words(s: &str) -> Vec<String> {
    s.split_whitespace().map(|w| w.to_string()).collect()
}

fn item(name: &str) -> Item {
    Item {
        track_id: TrackId::Spotify(name.to_string()),
        artists: vec![],
        name: name.to_string(),
        user: None,
        duration_ms: 1000,
    }
}

#[test]
fn moderator_commands_are_gated() {
    for c in [
        "skip", "toggle", "play", "pause", "volume 10", "list 5", "when bob", "delete last",
        "delete last bob", "delete 2", "promote 2", "purge", "close", "open", "theme intro",
    ] {
        assert_eq!(Err(SongCommandError::NotModerator), parse_song_command(&words(c), false, 50), "{}", c);
        assert!(parse_song_command(&words(c), true, 50).is_ok(), "{}", c);
    }
    for c in ["request foo", "request", "list", "current", "when", "delete mine", "volume", "length"] {
        assert!(parse_song_command(&words(c), false, 50).is_ok(), "{}", c);
    }
}

#[test]
fn commands_parse_their_arguments() {
    assert_eq!(Ok(SongCommand::Request("queen we will".to_string())), parse_song_command(&words("request queen we will"), false, 0));
    assert_eq!(Ok(SongCommand::RequestHelp), parse_song_command(&words("request"), false, 0));
    assert_eq!(Ok(SongCommand::Promote(1)), parse_song_command(&words("promote 2"), true, 0));
    assert_eq!(Err(SongCommandError::BadPosition(PositionError::Current)), parse_song_command(&words("promote 0"), true, 0));
    assert_eq!(Err(SongCommandError::BadPosition(PositionError::NotANumber)), parse_song_command(&words("delete x"), true, 0));
    assert_eq!(Ok(SongCommand::DeleteAt(0)), parse_song_command(&words("delete 1"), true, 0));
    assert_eq!(Ok(SongCommand::DeleteLastBy("bob".to_string())), parse_song_command(&words("delete last BoB"), true, 0));
    assert_eq!(Ok(SongCommand::DeleteLast), parse_song_command(&words("delete last"), true, 0));
    assert_eq!(Ok(SongCommand::DeleteMine), parse_song_command(&words("delete mine"), false, 0));
    assert_eq!(Err(SongCommandError::NoDeleteTarget), parse_song_command(&words("delete"), false, 0));
    assert_eq!(Err(SongCommandError::NoPosition), parse_song_command(&words("promote"), true, 0));
    assert_eq!(Ok(SongCommand::SetVolume(100)), parse_song_command(&words("volume +25"), true, 90));
    assert_eq!(Err(SongCommandError::BadVolume), parse_song_command(&words("volume loud"), true, 90));
    assert_eq!(Ok(SongCommand::ReadVolume), parse_song_command(&words("volume"), false, 90));
    assert_eq!(Ok(SongCommand::List(3)), parse_song_command(&words("list"), false, 0));
    assert_eq!(Ok(SongCommand::List(7)), parse_song_command(&words("list 7"), true, 0));
    assert_eq!(Ok(SongCommand::List(3)), parse_song_command(&words("list many"), true, 0));
    assert_eq!(Ok(SongCommand::When(Some("bob".to_string()))), parse_song_command(&words("when Bob"), true, 0));
    assert_eq!(Ok(SongCommand::Close(Some("back soon".to_string()))), parse_song_command(&words("close back soon"), true, 0));
    assert_eq!(Ok(SongCommand::Close(None)), parse_song_command(&words("close"), true, 0));
    assert_eq!(Err(SongCommandError::NoThemeName), parse_song_command(&words("theme"), true, 0));
    assert_eq!(Ok(SongCommand::Theme("intro".to_string())), parse_song_command(&words("theme intro"), true, 0));
    assert_eq!(Err(SongCommandError::Unknown), parse_song_command(&words("dance"), true, 0));
    assert_eq!(Err(SongCommandError::Unknown), parse_song_command(&vec![], true, 0));
}

#[test]
fn replies() {
    assert_eq!("No songs in queue :(", length_message(0, 0));
    assert_eq!("One song in queue with 3m of play time.", length_message(1, 180));
    assert_eq!("4 songs in queue with 1h1s of play time.", length_message(4, 3601));
    assert_eq!("Your song is currently playing cmonBruh", when_message(true, "u", &Some((500, item("A")))));
    assert_eq!("bob's song \"A\" is currently playing", when_message(false, "bob", &Some((0, item("A")))));
    assert_eq!("Your song \"A\" will play in 1m30s", when_message(true, "u", &Some((90_000, item("A")))));
    assert_eq!("bob doesn't have any songs in queue :(", when_message(false, "bob", &None));
    assert_eq!("You don't have any songs in queue :(", when_message(true, "u", &None));
    assert_eq!("Removed: \"A\"!", removed_message(&Some(item("A"))));
    assert_eq!("No song removed, sorry :(", removed_message(&None));
    assert_eq!("Promoted song to head of queue: \"A\"", promoted_message(&Some(item("A"))));
    assert_eq!("No such song to promote", promoted_message(&None));
    assert_eq!("That is not a valid Spotify track, sorry :(", malformed_message(ParseTrackIdError::BadSpotifyId));
    assert_eq!(None, command_error_message(SongCommandError::NotModerator));
    assert_eq!(Some("Can't mess with the current song :(".to_string()), command_error_message(SongCommandError::BadPosition(PositionError::Current)));
}

#[test]
fn current_and_volume_replies() {
    let mut a = item("A");
    a.duration_ms = 272_000;
    a.user = Some("bob".to_string());
    assert_eq!(
        "Current song: \"A\", requested by bob - 1:05 / 4:32 - https://open.spotify.com/track/A",
        current_message(&Some((a, 65_400)))
    );
    let mut b = item("B");
    b.track_id = TrackId::YouTube("xyz".to_string());
    b.duration_ms = 3_723_000;
    assert_eq!(
        "Current song: \"B\" - 0:00 / 1:02:03 - https://youtu.be/xyz",
        current_message(&Some((b, 0)))
    );
    assert_eq!("No song :(", current_message(&None));
    assert_eq!("Volume set to 100.", volume_message(100, true));
    assert_eq!("Current volume: 90.", volume_message(90, false));
}
