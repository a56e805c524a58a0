use songbot::{
    check_duplicate, check_duration, check_limits, check_subscriber, debit, refund,
    AddTrackError, Item, LastRequest, Policy, Provider, Queue, Size, TrackId, Url, Urls,
};

fn item(id: &str, user: Option<&str>, secs: u64) -> Item {
    Item {
        track_id: TrackId::Spotify(id.to_string()),
        artists: vec![],
        name: id.to_string(),
        user: user.map(|u| u.to_string()),
        duration_ms: secs * 1000,
    }
}

#[test]
fn queue_basics() {
    let mut q = Queue::new();
    assert!(q.is_empty());
    assert_eq!(None, q.front());
    assert_eq!(None, q.pop_front());
    q.push_back(item("A", Some("x"), 10));
    q.push_back(item("B", Some("y"), 20));
    q.push_back(item("C", Some("x"), 30));
    assert_eq!(3, q.len());
    assert_eq!(Some(item("A", Some("x"), 10)), q.front());
    assert_eq!(Some(2), q.rposition_by_user("x"));
    assert_eq!(None, q.rposition_by_user("z"));
    assert_eq!(2, q.count_by_user("x"));
    assert_eq!(60_000, q.total_ms());
    assert_eq!(Some(1), q.position_of(&TrackId::Spotify("B".to_string())));
    assert_eq!(None, q.position_of(&TrackId::YouTube("B".to_string())));
    assert_eq!(Some(item("A", Some("x"), 10)), q.pop_front());
    assert_eq!(Some(item("B", Some("y"), 20)), q.promote_song(0));
    assert_eq!(2, q.purge().len());
    assert!(q.is_empty());
    assert_eq!(None, q.remove_last());
    assert_eq!(None, q.remove_last_by_user("x"));
}

#[test]
fn limits_in_order() {
    let q = Queue::from_items(vec![item("A", Some("u"), 1), item("B", Some("u"), 1)]);
    let id = TrackId::Spotify("A".to_string());
    let other = TrackId::Spotify("C".to_string());
    let closed = Some(None);
    assert_eq!(Err(AddTrackError::PlayerClosed(None)), check_limits(&q, &id, "v", false, &closed, 1, 1));
    assert_eq!(Err(AddTrackError::QueueFull), check_limits(&q, &id, "v", false, &None, 1, 1));
    assert_eq!(Err(AddTrackError::QueueContainsTrack(0)), check_limits(&q, &id, "v", true, &closed, 1, 1));
    assert_eq!(Err(AddTrackError::TooManyUserTracks(2)), check_limits(&q, &other, "u", false, &None, 5, 2));
    assert_eq!(Ok(2), check_limits(&q, &other, "u", true, &None, 5, 2));
    assert_eq!(Ok(2), check_limits(&q, &other, "v", false, &None, 2, 2));
}

#[test]
fn single_checks() {
    let mut p = Policy::new(30, 2);
    assert_eq!(Err(AddTrackError::SubscribersOnly(Provider::YouTube)), check_subscriber(&p, Provider::YouTube, false, false));
    assert_eq!(Ok(()), check_subscriber(&p, Provider::YouTube, true, false));
    assert_eq!(Ok(()), check_subscriber(&p, Provider::Spotify, false, false));
    p.subscriber_only = true;
    assert_eq!(Ok(()), check_subscriber(&p, Provider::Spotify, false, true));
    let last = Some(LastRequest { when_ms: 10_000, user: None });
    assert_eq!(Err(AddTrackError::Duplicate(10_000, None, 5_000)), check_duplicate(&last, 14_999, 5_000));
    assert_eq!(Ok(()), check_duplicate(&last, 15_000, 5_000));
    assert_eq!(Ok(()), check_duplicate(&None, 0, 5_000));
    assert_eq!(Ok(()), check_duration(&p, Provider::Spotify, 600_000));
    assert_eq!(Err(AddTrackError::MaxDurationExceeded(Provider::Spotify, 600_000)), check_duration(&p, Provider::Spotify, 600_001));
    assert_eq!(Ok(40), debit(100, 60));
    assert_eq!(Ok(-3), debit(-3, 0));
    assert_eq!(Err(AddTrackError::NotEnoughCurrency { balance: 59, required: 60 }), debit(59, 60));
    assert_eq!(100, refund(40, 60));
    assert_eq!(40, refund(40, -1));
}

#[test]
fn scaled_urls() {
    let u = Urls::scaled(28, 20, Some("a".to_string()), None, Some("c".to_string()));
    assert_eq!(Some(Size { width: 28, height: 20 }), u.small.as_ref().unwrap().size);
    assert!(u.medium.is_none());
    assert_eq!(Some(Size { width: 112, height: 80 }), u.large.as_ref().unwrap().size);
    assert_eq!(None, Url::new("x".to_string()).size);
    assert!(Urls::empty().small.is_none());
}
