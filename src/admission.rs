use vstd::prelude::*;

use crate::queue::{count_by_user, Queue};
use crate::track::{opt_str_view, Provider, TrackId};

verus! {

/// Why a song request was refused.
#[derive(Debug, PartialEq)]
pub enum AddTrackError {
    /// The request named no track that could be found.
    NotFound,
    /// YouTube requests are switched off.
    YouTubeDisabled,
    /// Only subscribers may request tracks of this provider.
    SubscribersOnly(Provider),
    /// The player is closed for requests, with an optional reason.
    PlayerClosed(Option<String>),
    /// The queue is full.
    QueueFull,
    /// The queue already holds the track, at the given position.
    QueueContainsTrack(usize),
    /// The requester already has the given maximum of tracks in the queue.
    TooManyUserTracks(u32),
    /// The track was requested recently: when (milliseconds since the epoch),
    /// by whom, and the cooldown in milliseconds.
    Duplicate(u64, Option<String>, u64),
    /// The requester cannot pay for the request.
    NotEnoughCurrency { balance: i64, required: i64 },
    /// The track is longer than the provider's limit, in milliseconds.
    MaxDurationExceeded(Provider, u64),
    /// Some other failure, such as a transient upstream error.
    Error,
}

/// Per-provider limits of the request rules.
#[derive(Debug, Clone, Copy)]
pub struct ProviderPolicy {
    /// Whether only subscribers may request tracks of this provider.
    pub subscriber_only: bool,
    /// The longest track accepted, in milliseconds.
    pub max_duration_ms: u64,
    /// What a request costs; nothing is debited when it is zero or less.
    pub min_currency: i64,
}

/// The configured request rules.
#[derive(Debug, Clone, Copy)]
pub struct Policy {
    pub max_queue_length: u32,
    pub max_songs_per_user: u32,
    /// Whether only subscribers may request, whatever the provider.
    pub subscriber_only: bool,
    pub youtube_support: bool,
    /// How long, in milliseconds, before a track may be requested again.
    pub duplicate_limit_ms: u64,
    pub spotify: ProviderPolicy,
    pub youtube: ProviderPolicy,
}

impl Policy {
    /// The rules as configured out of the box, with the player's queue
    /// limits: ten minutes at most and 60 units of currency per track, no
    /// subscriber requirement but on YouTube, which is itself switched off,
    /// and no duplicate cooldown.
    pub fn new(max_queue_length: u32, max_songs_per_user: u32) -> (r: Policy)
        ensures
            r.max_queue_length == max_queue_length,
            r.max_songs_per_user == max_songs_per_user,
            !r.subscriber_only,
            !r.youtube_support,
            r.duplicate_limit_ms == 0,
            r.spotify == (ProviderPolicy {
                subscriber_only: false,
                max_duration_ms: 600_000,
                min_currency: 60,
            }),
            r.youtube == (ProviderPolicy {
                subscriber_only: true,
                max_duration_ms: 600_000,
                min_currency: 60,
            }),
    {
        Policy {
            max_queue_length,
            max_songs_per_user,
            subscriber_only: false,
            youtube_support: false,
            duplicate_limit_ms: 0,
            spotify: ProviderPolicy { subscriber_only: false, max_duration_ms: 600_000, min_currency: 60 },
            youtube: ProviderPolicy { subscriber_only: true, max_duration_ms: 600_000, min_currency: 60 },
        }
    }

    pub open spec fn provider_spec(&self, p: Provider) -> ProviderPolicy {
        match p {
            Provider::Spotify => self.spotify,
            Provider::YouTube => self.youtube,
        }
    }

    /// The rules that apply to tracks of provider `p`.
    pub fn provider(&self, p: Provider) -> (r: ProviderPolicy)
        ensures
            r == self.provider_spec(p),
    {
        match p {
            Provider::Spotify => self.spotify,
            Provider::YouTube => self.youtube,
        }
    }
}

/// Whether `i` is the first position in `q` that holds `track`.
pub open spec fn first_match(
    q: Seq<crate::track::ItemView>,
    track: (Provider, Seq<char>),
    i: int,
) -> bool {
    0 <= i < q.len() && q[i].track_id == track && forall|k: int|
        0 <= k < i ==> #[trigger] q[k].track_id != track
}

pub open spec fn contains_track(q: Seq<crate::track::ItemView>, track: (Provider, Seq<char>)) -> bool {
    exists|i: int| 0 <= i < q.len() && #[trigger] q[i].track_id == track
}

/// Checks the limits that the queue's current content imposes on a request
/// for `track_id` by `user`, and returns the position the track would take.
///
/// Refusals, in order: the player is closed, the queue is over its length,
/// the queue holds the track, the user has too many tracks queued. Moderators
/// pass every check but the one on the track being queued already.
pub fn check_limits(
    queue: &Queue,
    track_id: &TrackId,
    user: &str,
    is_moderator: bool,
    closed: &Option<Option<String>>,
    max_queue_length: u32,
    max_songs_per_user: u32,
) -> (r: Result<usize, AddTrackError>)
    ensures
        !is_moderator && closed is Some ==> (r matches Err(AddTrackError::PlayerClosed(reason))
            && opt_str_view(reason) == opt_str_view(closed->0)),
        !(!is_moderator && closed is Some) && !is_moderator && queue@.len() > max_queue_length
            ==> r matches Err(AddTrackError::QueueFull),
        !(!is_moderator && closed is Some) && !(!is_moderator && queue@.len() > max_queue_length)
            && contains_track(queue@, track_id@) ==> (r matches Err(
            AddTrackError::QueueContainsTrack(i),
        ) && first_match(queue@, track_id@, i as int)),
        !(!is_moderator && closed is Some) && !(!is_moderator && queue@.len() > max_queue_length)
            && !contains_track(queue@, track_id@) && !is_moderator && count_by_user(queue@, user@)
            >= max_songs_per_user ==> (r matches Err(AddTrackError::TooManyUserTracks(m)) && m
            == max_songs_per_user),
        !(!is_moderator && closed is Some) && !(!is_moderator && queue@.len() > max_queue_length)
            && !contains_track(queue@, track_id@) && !(!is_moderator && count_by_user(
            queue@,
            user@,
        ) >= max_songs_per_user) ==> (r matches Ok(p) && p == queue@.len()),
{
    let len = queue.len();
    if !is_moderator {
        match closed {
            Some(reason) => {
                let reason = match reason {
                    Some(s) => Some(s.clone()),
                    None => None,
                };
                return Err(AddTrackError::PlayerClosed(reason));
            },
            None => {},
        }
    }
    if !is_moderator && len as u64 > max_queue_length as u64 {
        return Err(AddTrackError::QueueFull);
    }
    match queue.position_of(track_id) {
        Some(i) => {
            return Err(AddTrackError::QueueContainsTrack(i));
        },
        None => {},
    }
    let count = queue.count_by_user(user);
    if !is_moderator && count as u64 >= max_songs_per_user as u64 {
        return Err(AddTrackError::TooManyUserTracks(max_songs_per_user));
    }
    Ok(len)
}

/// Whether a request for a track of provider `p` needs a subscriber.
pub open spec fn needs_subscriber(policy: Policy, p: Provider, is_moderator: bool) -> bool {
    (policy.subscriber_only || policy.provider_spec(p).subscriber_only) && !is_moderator
}

/// Refuses a non-subscriber where the rules ask for subscribers.
pub fn check_subscriber(policy: &Policy, p: Provider, is_moderator: bool, is_subscriber: bool) -> (r:
    Result<(), AddTrackError>)
    ensures
        needs_subscriber(*policy, p, is_moderator) && !is_subscriber ==> (r matches Err(
            AddTrackError::SubscribersOnly(q),
        ) && q == p),
        !(needs_subscriber(*policy, p, is_moderator) && !is_subscriber) ==> r is Ok,
{
    let pp = policy.provider(p);
    if (policy.subscriber_only || pp.subscriber_only) && !is_moderator && !is_subscriber {
        Err(AddTrackError::SubscribersOnly(p))
    } else {
        Ok(())
    }
}

/// Whether a request made at `now_ms` falls within the cooldown of an
/// earlier request made at `when_ms`.
pub open spec fn within_cooldown(when_ms: u64, now_ms: u64, limit_ms: u64) -> bool {
    now_ms < when_ms + limit_ms
}

/// The time and requester of the last request of a track.
#[derive(Debug)]
pub struct LastRequest {
    /// Milliseconds since the epoch.
    pub when_ms: u64,
    pub user: Option<String>,
}

/// Refuses a track that was last requested less than `limit_ms` ago.
pub fn check_duplicate(last: &Option<LastRequest>, now_ms: u64, limit_ms: u64) -> (r:
    Result<(), AddTrackError>)
    ensures
        last is Some && within_cooldown(last->0.when_ms, now_ms, limit_ms) ==> (r matches Err(
            AddTrackError::Duplicate(w, who, lim),
        ) && w == last->0.when_ms && opt_str_view(who) == opt_str_view(last->0.user) && lim == limit_ms),
        !(last is Some && within_cooldown(last->0.when_ms, now_ms, limit_ms)) ==> r is Ok,
{
    match last {
        Some(l) => {
            if (now_ms as u128) < (l.when_ms as u128) + (limit_ms as u128) {
                let who = match &l.user {
                    Some(w) => Some(w.clone()),
                    None => None,
                };
                Err(AddTrackError::Duplicate(l.when_ms, who, limit_ms))
            } else {
                Ok(())
            }
        },
        None => Ok(()),
    }
}

/// Refuses a track longer than its provider allows.
pub fn check_duration(policy: &Policy, p: Provider, duration_ms: u64) -> (r: Result<
    (),
    AddTrackError,
>)
    ensures
        duration_ms > policy.provider_spec(p).max_duration_ms ==> (r matches Err(
            AddTrackError::MaxDurationExceeded(q, m),
        ) && q == p && m == policy.provider_spec(p).max_duration_ms),
        duration_ms <= policy.provider_spec(p).max_duration_ms ==> r is Ok,
{
    let pp = policy.provider(p);
    if duration_ms > pp.max_duration_ms {
        Err(AddTrackError::MaxDurationExceeded(p, pp.max_duration_ms))
    } else {
        Ok(())
    }
}

/// The balance left after paying `price`; prices of zero or less cost nothing.
pub open spec fn balance_after(balance: i64, price: i64) -> int {
    if price > 0 {
        balance - price
    } else {
        balance as int
    }
}

/// Debits the price of a request from `balance` and returns what is left.
pub fn debit(balance: i64, price: i64) -> (r: Result<i64, AddTrackError>)
    ensures
        price > 0 && balance < price ==> (r matches Err(AddTrackError::NotEnoughCurrency {
            balance: b,
            required: q,
        }) && b == balance && q == price),
        !(price > 0 && balance < price) ==> (r matches Ok(left) && left == balance_after(
            balance,
            price,
        )),
{
    if price > 0 {
        if balance < price {
            Err(AddTrackError::NotEnoughCurrency { balance, required: price })
        } else {
            Ok(balance - price)
        }
    } else {
        Ok(balance)
    }
}

/// Puts back a debit after a request failed past the payment.
pub fn refund(balance: i64, price: i64) -> (r: i64)
    requires
        price > 0 ==> balance + price <= i64::MAX,
    ensures
        price > 0 ==> r == balance + price,
        price <= 0 ==> r == balance,
{
    if price > 0 {
        balance + price
    } else {
        balance
    }
}

} // verus!
