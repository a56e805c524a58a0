use vstd::prelude::*;

use vstd::string::{StringExecFns, StringSliceAdditionalSpecFns};

use crate::admission::AddTrackError;
use crate::engine::{Event, EventView};
use crate::text::{compact_time, compact_time_spec, decimal, push_decimal};
use crate::track::{what_spec, Item, ItemView, Provider};

verus! {

/// Whether every byte of `b` is an ASCII digit.
pub open spec fn all_digits(b: Seq<u8>) -> bool {
    forall|i: int| 0 <= i < b.len() ==> 48 <= #[trigger] b[i] <= 57
}

/// The value of a string of ASCII digits.
pub open spec fn digits_value(b: Seq<u8>) -> nat
    decreases b.len(),
{
    if b.len() == 0 {
        0
    } else {
        digits_value(b.drop_last()) * 10 + (b.last() - 48) as nat
    }
}

/// The digits of an unsigned number, after an optional leading `+`.
pub open spec fn unsigned_digits(b: Seq<u8>) -> Seq<u8> {
    if b.len() > 0 && b[0] == 43 {
        b.drop_first()
    } else {
        b
    }
}

/// The unsigned number that `b` spells, if it is one and at most `max`.
pub open spec fn parse_unsigned(b: Seq<u8>, max: nat) -> Option<nat> {
    let d = unsigned_digits(b);
    if d.len() > 0 && all_digits(d) && digits_value(d) <= max {
        Some(digits_value(d))
    } else {
        None
    }
}

proof fn lemma_capped_step(v: nat, d: nat, m: nat)
    requires
        m >= 1,
    ensures
        (if v > m {
            m
        } else {
            v
        }) * 10 + d >= m <==> v * 10 + d >= m,
        v <= m && v * 10 + d < m ==> (if v > m {
            m
        } else {
            v
        }) * 10 + d == v * 10 + d,
{
    if v > m {
        assert(m * 10 + d >= m) by (nonlinear_arith);
        assert(v * 10 + d >= m) by (nonlinear_arith)
            requires
                v > m,
        ;
    }
}

/// Parses an unsigned number of at most `max` from the bytes of `s`.
pub(crate) fn parse_bytes(b: &[u8], max: u64) -> (r: Option<u64>)
    ensures
        r matches Some(v) ==> parse_unsigned(b@, max as nat) == Some(v as nat),
        r is None ==> parse_unsigned(b@, max as nat) is None,
{
    let start: usize = if b.len() > 0 && b[0] == 43 {
        1
    } else {
        0
    };
    let ghost d = unsigned_digits(b@);
    proof {
        assert(d =~= b@.subrange(start as int, b@.len() as int));
    }
    if start >= b.len() {
        return None;
    }
    let cap: u128 = max as u128 + 1;
    let mut acc: u128 = 0;
    let mut i: usize = start;
    while i < b.len()
        invariant
            start <= i <= b@.len(),
            d == b@.subrange(start as int, b@.len() as int),
            d == unsigned_digits(b@),
            cap == max + 1,
            acc <= cap,
            all_digits(b@.subrange(start as int, i as int)),
            acc == if digits_value(b@.subrange(start as int, i as int)) >= cap {
                cap as nat
            } else {
                digits_value(b@.subrange(start as int, i as int))
            },
        decreases b@.len() - i,
    {
        let x = b[i];
        if x < 48 || x > 57 {
            proof {
                assert(d[i - start] == x);
                assert(!all_digits(d));
            }
            return None;
        }
        let ghost pre = b@.subrange(start as int, i as int);
        let ghost nxt = b@.subrange(start as int, i + 1);
        proof {
            assert(nxt.drop_last() =~= pre);
            assert(digits_value(nxt) == digits_value(pre) * 10 + (x - 48) as nat);
            lemma_capped_step(digits_value(pre), (x - 48) as nat, cap as nat);
            assert(all_digits(nxt));
        }
        let step: u128 = acc * 10 + (x - 48) as u128;
        acc = if step >= cap {
            cap
        } else {
            step
        };
        i = i + 1;
    }
    if acc > max as u128 {
        None
    } else {
        Some(acc as u64)
    }
}

/// Why a queue position was rejected.
#[derive(Debug, Clone, Copy, PartialEq, Eq, Structural)]
pub enum PositionError {
    /// Position 0 is the current song, which may not be touched.
    Current,
    /// The argument is not a whole number.
    NotANumber,
}

/// A 1-based queue position as a 0-based queue index; position 0, the
/// current song, is refused.
pub open spec fn position_spec(b: Seq<u8>) -> Result<usize, PositionError> {
    match parse_unsigned(b, usize::MAX as nat) {
        None => Err(PositionError::NotANumber),
        Some(v) => if v == 0 {
            Err(PositionError::Current)
        } else {
            Ok((v - 1) as usize)
        },
    }
}

/// Parses a 1-based queue position from chat into a 0-based queue index.
pub fn parse_queue_position(n: &str) -> (r: Result<usize, PositionError>)
    ensures
        r == position_spec(n.spec_bytes()),
        parse_unsigned(n.spec_bytes(), usize::MAX as nat) is None ==> r == Err::<
            usize,
            PositionError,
        >(PositionError::NotANumber),
        parse_unsigned(n.spec_bytes(), usize::MAX as nat) == Some(0nat) ==> r == Err::<
            usize,
            PositionError,
        >(PositionError::Current),
        parse_unsigned(n.spec_bytes(), usize::MAX as nat) is Some && parse_unsigned(
            n.spec_bytes(),
            usize::MAX as nat,
        )->0 > 0 ==> r == Ok::<usize, PositionError>(
            (parse_unsigned(n.spec_bytes(), usize::MAX as nat)->0 - 1) as usize,
        ),
{
    match parse_bytes(n.as_bytes(), usize::MAX as u64) {
        None => Err(PositionError::NotANumber),
        Some(0) => Err(PositionError::Current),
        Some(v) => Ok((v - 1) as usize),
    }
}

/// The volume that a chat argument asks for: `+N` and `-N` relative to
/// `current` (saturating), `N` absolute; clamped to 100.
pub open spec fn volume_spec(current: u32, b: Seq<u8>) -> Option<u32> {
    let rel = b.len() > 0 && (b[0] == 43 || b[0] == 45);
    let arg = if rel {
        b.drop_first()
    } else {
        b
    };
    match parse_unsigned(arg, u32::MAX as nat) {
        None => None,
        Some(v) => {
            let t: int = if rel && b[0] == 43 {
                if current + v > u32::MAX {
                    u32::MAX as int
                } else {
                    current + v
                }
            } else if rel {
                if current - v < 0 {
                    0
                } else {
                    current - v
                }
            } else {
                v as int
            };
            Some(
                if t > 100 {
                    100
                } else {
                    t as u32
                },
            )
        },
    }
}

/// The new volume for a chat `volume` argument, or `None` when the argument
/// is not a whole number.
pub fn volume_argument(current: u32, arg: &str) -> (r: Option<u32>)
    ensures
        r == volume_spec(current, arg.spec_bytes()),
{
    let b = arg.as_bytes();
    let rel = b.len() > 0 && (b[0] == 43 || b[0] == 45);
    let plus = b.len() > 0 && b[0] == 43;
    let parsed = if rel {
        let (_, rest) = vstd::slice::slice_subrange(b, 1, b.len()).split_at(0);
        proof {
            assert(rest@ =~= b@.drop_first());
        }
        parse_bytes(rest, u32::MAX as u64)
    } else {
        parse_bytes(b, u32::MAX as u64)
    };
    match parsed {
        None => None,
        Some(v) => {
            let v = v as u32;
            let t: u32 = if rel && plus {
                current.saturating_add(v)
            } else if rel {
                current.saturating_sub(v)
            } else {
                v
            };
            Some(
                if t > 100 {
                    100
                } else {
                    t
                },
            )
        },
    }
}


/// One line of a queue listing: position, item and requester.
pub open spec fn song_line(i: nat, item: ItemView) -> Seq<char> {
    "#"@ + decimal(i) + ": "@ + what_spec(item) + match item.user {
        Some(u) => " ("@ + u + ")"@,
        None => Seq::empty(),
    }
}

/// The lines of `items`, numbered from 0, separated by `; `.
pub open spec fn listing(items: Seq<ItemView>) -> Seq<char>
    decreases items.len(),
{
    if items.len() == 0 {
        Seq::empty()
    } else if items.len() == 1 {
        song_line(0, items[0])
    } else {
        listing(items.drop_last()) + "; "@ + song_line((items.len() - 1) as nat, items.last())
    }
}

/// The chat reply listing at most `limit` of `items`.
pub open spec fn display_songs_spec(items: Seq<ItemView>, limit: nat) -> Seq<char> {
    let n: nat = if limit < items.len() {
        limit
    } else {
        items.len()
    };
    let shown = items.take(n as int);
    if n == 0 {
        "Song queue is empty."@
    } else if items.len() > limit {
        listing(shown) + " ... and "@ + decimal((items.len() - limit) as nat) + " more."@
    } else {
        listing(shown) + "."@
    }
}

fn push_song_line(s: &mut String, i: usize, item: &Item)
    ensures
        final(s)@ == old(s)@ + song_line(i as nat, item@),
{
    proof {
        reveal_strlit("#");
        reveal_strlit(": ");
        reveal_strlit(" (");
        reveal_strlit(")");
    }
    s.append("#");
    push_decimal(s, i as u128);
    s.append(": ");
    let what = item.what();
    s.append(what.as_str());
    match &item.user {
        Some(u) => {
            s.append(" (");
            s.append(u.as_str());
            s.append(")");
        },
        None => {},
    }
    assert(final(s)@ =~= old(s)@ + song_line(i as nat, item@));
}

/// The chat reply that lists at most `limit` of `items`, the first being
/// the current song.
pub fn display_songs(items: &Vec<Item>, limit: usize) -> (r: String)
    ensures
        r@ == display_songs_spec(crate::queue::views(items@), limit as nat),
{
    let ghost all = crate::queue::views(items@);
    let n: usize = if limit < items.len() {
        limit
    } else {
        items.len()
    };
    if n == 0 {
        proof {
            reveal_strlit("Song queue is empty.");
        }
        return String::from_str("Song queue is empty.");
    }
    let mut s = String::new();
    let mut i: usize = 0;
    while i < n
        invariant
            n <= items@.len(),
            all == crate::queue::views(items@),
            i <= n,
            s@ == listing(all.take(i as int)),
        decreases n - i,
    {
        proof {
            reveal_strlit("; ");
            assert(all.take(i + 1).drop_last() =~= all.take(i as int));
        }
        if i > 0 {
            s.append("; ");
        }
        push_song_line(&mut s, i, &items[i]);
        i = i + 1;
    }
    if items.len() > limit {
        proof {
            reveal_strlit(" ... and ");
            reveal_strlit(" more.");
        }
        s.append(" ... and ");
        push_decimal(&mut s, (items.len() - limit) as u128);
        s.append(" more.");
    } else {
        proof {
            reveal_strlit(".");
        }
        s.append(".");
    }
    s
}

/// What the bot says in chat about a player event, if anything.
/// `chat_feedback` is the streamer's setting for playback feedback.
pub open spec fn feedback_spec(e: EventView, chat_feedback: bool) -> Option<Seq<char>> {
    match e {
        EventView::Playing(echo, _, item) => if !echo || !chat_feedback {
            None
        } else {
            match item.user {
                Some(u) => Some("Now playing: "@ + what_spec(item) + ", requested by "@ + u + "."@),
                None => Some("Now playing: "@ + what_spec(item) + "."@),
            }
        },
        EventView::Pausing => if chat_feedback {
            Some("Pausing playback."@)
        } else {
            None
        },
        EventView::Empty => Some(
            "Song queue is empty (use !song request <spotify-id> to add more)."@,
        ),
        EventView::Modified => None,
        EventView::NotConfigured => Some("Player has not been configured yet!"@),
        EventView::Detached => Some("Player is detached!"@),
    }
}

/// The chat message for a player event, if any.
pub fn feedback_message(e: &Event, chat_feedback: bool) -> (r: Option<String>)
    ensures
        match r {
            Some(m) => feedback_spec(e@, chat_feedback) == Some(m@),
            None => feedback_spec(e@, chat_feedback) is None,
        },
{
    match e {
        Event::Playing(echo, _, item) => {
            if !*echo || !chat_feedback {
                return None;
            }
            proof {
                reveal_strlit("Now playing: ");
                reveal_strlit(", requested by ");
                reveal_strlit(".");
            }
            let mut s = String::from_str("Now playing: ");
            let what = item.what();
            s.append(what.as_str());
            match &item.user {
                Some(u) => {
                    s.append(", requested by ");
                    s.append(u.as_str());
                },
                None => {},
            }
            s.append(".");
            assert(s@ =~= feedback_spec(e@, chat_feedback)->0);
            Some(s)
        },
        Event::Pausing => {
            if chat_feedback {
                proof {
                    reveal_strlit("Pausing playback.");
                }
                Some(String::from_str("Pausing playback."))
            } else {
                None
            }
        },
        Event::Empty => {
            proof {
                reveal_strlit("Song queue is empty (use !song request <spotify-id> to add more).");
            }
            Some(String::from_str("Song queue is empty (use !song request <spotify-id> to add more)."))
        },
        Event::Modified => None,
        Event::NotConfigured => {
            proof {
                reveal_strlit("Player has not been configured yet!");
            }
            Some(String::from_str("Player has not been configured yet!"))
        },
        Event::Detached => {
            proof {
                reveal_strlit("Player is detached!");
            }
            Some(String::from_str("Player is detached!"))
        },
    }
}


/// The decimal form of a signed number.
pub open spec fn signed_decimal(v: int) -> Seq<char> {
    if v < 0 {
        "-"@ + decimal((-v) as nat)
    } else {
        decimal(v as nat)
    }
}

fn push_signed(s: &mut String, v: i64)
    ensures
        final(s)@ == old(s)@ + signed_decimal(v as int),
{
    if v < 0 {
        proof {
            reveal_strlit("-");
        }
        s.append("-");
        let m: u64 = if v == i64::MIN {
            9223372036854775808u64
        } else {
            (-v) as u64
        };
        push_decimal(s, m as u128);
        assert(final(s)@ =~= old(s)@ + signed_decimal(v as int));
    } else {
        push_decimal(s, v as u128);
    }
}

pub open spec fn provider_name(p: Provider) -> Seq<char> {
    match p {
        Provider::Spotify => "Spotify"@,
        Provider::YouTube => "YouTube"@,
    }
}

/// Who requested a duplicate, as seen by `user`.
pub open spec fn by_whom(who: Option<Seq<char>>, user: Seq<char>) -> Seq<char> {
    match who {
        Some(w) => if w == user {
            " by you"@
        } else {
            " by "@ + w
        },
        None => Seq::empty(),
    }
}

/// How long ago a duplicate was requested, as of `now_ms`.
pub open spec fn how_long_ago(when_ms: u64, now_ms: u64) -> Seq<char> {
    if now_ms >= when_ms {
        " "@ + compact_time_spec(((now_ms - when_ms) / 1000) as nat) + " ago"@
    } else {
        " not too long ago"@
    }
}

/// The reply to a refused request by `user`; `currency` names the
/// streamer's currency, `now_ms` is the time now since the epoch.
pub open spec fn refusal_spec(e: AddTrackError, user: Seq<char>, currency: Seq<char>, now_ms: u64) -> Seq<char> {
    match e {
        AddTrackError::NotFound => "Could not find a track matching your request, sorry :("@,
        AddTrackError::YouTubeDisabled => "YouTube song requests are currently not enabled, sorry :("@,
        AddTrackError::SubscribersOnly(p) => "You must be a subscriber for "@ + provider_name(p)
            + " requests, sorry :("@,
        AddTrackError::PlayerClosed(reason) => match reason {
            Some(r) => r@,
            None => "Player is closed from further requests, sorry :("@,
        },
        AddTrackError::QueueFull => "Player is full, try again later!"@,
        AddTrackError::QueueContainsTrack(pos) => "Player already contains that track (position #"@
            + decimal((pos + 1) as nat) + ")."@,
        AddTrackError::TooManyUserTracks(n) => if n == 0 {
            "Unfortunately you are not allowed to add tracks :("@
        } else if n == 1 {
            "<3 your enthusiasm, but you already have a track in the queue."@
        } else {
            "<3 your enthusiasm, but you already have "@ + decimal(n as nat) + " tracks in the queue."@
        },
        AddTrackError::Duplicate(when, who, limit) => "That song was requested"@ + by_whom(
            crate::track::opt_str_view(who),
            user,
        ) + how_long_ago(when, now_ms) + ", you have to wait at least "@ + compact_time_spec(
            (limit / 1000) as nat,
        ) + " between duplicate requests!"@,
        AddTrackError::NotEnoughCurrency { balance, required } => "You don't have enough "@
            + currency + " to request songs. Need "@ + signed_decimal(required as int)
            + ", but you have "@ + signed_decimal(balance as int) + ", sorry :("@,
        AddTrackError::MaxDurationExceeded(p, max) => "That "@ + provider_name(p)
            + " track is too long, the limit is "@ + compact_time_spec((max / 1000) as nat) + "."@,
        AddTrackError::Error => "There was a problem adding your song :("@,
    }
}

/// The chat reply to a refused request.
pub fn refusal_message(e: &AddTrackError, user: &str, currency: &str, now_ms: u64) -> (r: String)
    ensures
        r@ == refusal_spec(*e, user@, currency@, now_ms),
{
    let mut s = String::new();
    match e {
        AddTrackError::NotFound => {
            proof { reveal_strlit("Could not find a track matching your request, sorry :("); }
            s.append("Could not find a track matching your request, sorry :(");
        },
        AddTrackError::YouTubeDisabled => {
            proof { reveal_strlit("YouTube song requests are currently not enabled, sorry :("); }
            s.append("YouTube song requests are currently not enabled, sorry :(");
        },
        AddTrackError::SubscribersOnly(p) => {
            proof {
                reveal_strlit("You must be a subscriber for ");
                reveal_strlit(" requests, sorry :(");
                reveal_strlit("Spotify");
                reveal_strlit("YouTube");
            }
            s.append("You must be a subscriber for ");
            match p {
                Provider::Spotify => s.append("Spotify"),
                Provider::YouTube => s.append("YouTube"),
            }
            s.append(" requests, sorry :(");
        },
        AddTrackError::PlayerClosed(reason) => match reason {
            Some(r) => s.append(r.as_str()),
            None => {
                proof { reveal_strlit("Player is closed from further requests, sorry :("); }
                s.append("Player is closed from further requests, sorry :(");
            },
        },
        AddTrackError::QueueFull => {
            proof { reveal_strlit("Player is full, try again later!"); }
            s.append("Player is full, try again later!");
        },
        AddTrackError::QueueContainsTrack(pos) => {
            proof {
                reveal_strlit("Player already contains that track (position #");
                reveal_strlit(").");
            }
            s.append("Player already contains that track (position #");
            push_decimal(&mut s, *pos as u128 + 1);
            s.append(").");
        },
        AddTrackError::TooManyUserTracks(n) => {
            if *n == 0 {
                proof { reveal_strlit("Unfortunately you are not allowed to add tracks :("); }
                s.append("Unfortunately you are not allowed to add tracks :(");
            } else if *n == 1 {
                proof { reveal_strlit("<3 your enthusiasm, but you already have a track in the queue."); }
                s.append("<3 your enthusiasm, but you already have a track in the queue.");
            } else {
                proof {
                    reveal_strlit("<3 your enthusiasm, but you already have ");
                    reveal_strlit(" tracks in the queue.");
                }
                s.append("<3 your enthusiasm, but you already have ");
                push_decimal(&mut s, *n as u128);
                s.append(" tracks in the queue.");
            }
        },
        AddTrackError::Duplicate(when, who, limit) => {
            proof {
                reveal_strlit("That song was requested");
                reveal_strlit(" by you");
                reveal_strlit(" by ");
                reveal_strlit(" ");
                reveal_strlit(" ago");
                reveal_strlit(" not too long ago");
                reveal_strlit(", you have to wait at least ");
                reveal_strlit(" between duplicate requests!");
            }
            s.append("That song was requested");
            match who {
                Some(w) => {
                    if *w == <String as vstd::string::StringExecFns>::from_str(user) {
                        s.append(" by you");
                    } else {
                        s.append(" by ");
                        s.append(w.as_str());
                    }
                },
                None => {},
            }
            if now_ms >= *when {
                s.append(" ");
                let ago = compact_time(((now_ms - *when) / 1000) as u128);
                s.append(ago.as_str());
                s.append(" ago");
            } else {
                s.append(" not too long ago");
            }
            s.append(", you have to wait at least ");
            let lim = compact_time((*limit / 1000) as u128);
            s.append(lim.as_str());
            s.append(" between duplicate requests!");
        },
        AddTrackError::NotEnoughCurrency { balance, required } => {
            proof {
                reveal_strlit("You don't have enough ");
                reveal_strlit(" to request songs. Need ");
                reveal_strlit(", but you have ");
                reveal_strlit(", sorry :(");
            }
            s.append("You don't have enough ");
            s.append(currency);
            s.append(" to request songs. Need ");
            push_signed(&mut s, *required);
            s.append(", but you have ");
            push_signed(&mut s, *balance);
            s.append(", sorry :(");
        },
        AddTrackError::MaxDurationExceeded(p, max) => {
            proof {
                reveal_strlit("That ");
                reveal_strlit(" track is too long, the limit is ");
                reveal_strlit(".");
                reveal_strlit("Spotify");
                reveal_strlit("YouTube");
            }
            s.append("That ");
            match p {
                Provider::Spotify => s.append("Spotify"),
                Provider::YouTube => s.append("YouTube"),
            }
            s.append(" track is too long, the limit is ");
            let lim = compact_time((*max / 1000) as u128);
            s.append(lim.as_str());
            s.append(".");
        },
        AddTrackError::Error => {
            proof { reveal_strlit("There was a problem adding your song :("); }
            s.append("There was a problem adding your song :(");
        },
    }
    assert(s@ =~= refusal_spec(*e, user@, currency@, now_ms));
    s
}

/// The reply to an accepted request at queue index `pos`; `reward` is the
/// amount and name of the currency credited for it, if any.
pub open spec fn added_spec(what: Seq<char>, pos: nat, reward: Option<(u32, Seq<char>)>) -> Seq<char> {
    match reward {
        Some((amount, name)) => "Added "@ + what + " at position #"@ + decimal(pos + 1)
            + ", here's your "@ + decimal(amount as nat) + " "@ + name + "!"@,
        None => "Added "@ + what + " at position #"@ + decimal(pos + 1) + "!"@,
    }
}

/// The chat reply to an accepted request.
pub fn added_message(item: &Item, pos: usize, reward: Option<(u32, &str)>) -> (r: String)
    ensures
        r@ == added_spec(
            what_spec(item@),
            pos as nat,
            match reward {
                Some((a, n)) => Some((a, n@)),
                None => None,
            },
        ),
{
    proof {
        reveal_strlit("Added ");
        reveal_strlit(" at position #");
        reveal_strlit(", here's your ");
        reveal_strlit(" ");
        reveal_strlit("!");
    }
    let mut s = String::from_str("Added ");
    let what = item.what();
    s.append(what.as_str());
    s.append(" at position #");
    push_decimal(&mut s, pos as u128 + 1);
    match reward {
        Some((amount, name)) => {
            s.append(", here's your ");
            push_decimal(&mut s, amount as u128);
            s.append(" ");
            s.append(name);
        },
        None => {},
    }
    s.append("!");
    s
}


/// The help text for song requests, with the command prefix used.
pub open spec fn help_text(prefix: Seq<char>) -> Seq<char> {
    "You can request a song from Spotify with "@ + prefix
        + " <search>, like \""@ + prefix + " queen we will rock you\". You can also use an URI or an URL if you feel adventurous PogChamp"@
}

/// The reply explaining how to request songs, with an optional reason in
/// front. While the help cooldown runs only the reason is given, if any.
pub fn request_help(
    cooldown: &mut crate::config::Cooldown,
    now_ms: u64,
    reason: Option<&str>,
    prefix: Option<&str>,
) -> (r: Option<String>)
    ensures
        ({
            let p = match prefix {
                Some(p) => p@,
                None => "!song request"@,
            };
            &&& !old(cooldown).open_at(now_ms) ==> *final(cooldown) == *old(cooldown) && match reason {
                Some(m) => r matches Some(t) && t@ == m@,
                None => r is None,
            }
            &&& old(cooldown).open_at(now_ms) ==> final(cooldown).last_ms == Some(now_ms) && (
            r matches Some(t) && t@ == match reason {
                Some(m) => m@ + ". "@ + help_text(p),
                None => help_text(p),
            })
        }),
{
    if !cooldown.is_open(now_ms) {
        return match reason {
            Some(m) => Some(String::from_str(m)),
            None => None,
        };
    }
    proof {
        reveal_strlit("!song request");
        reveal_strlit("You can request a song from Spotify with ");
        reveal_strlit(" <search>, like \"");
        reveal_strlit(" queen we will rock you\". You can also use an URI or an URL if you feel adventurous PogChamp");
        reveal_strlit(". ");
    }
    let p = match prefix {
        Some(p) => p,
        None => "!song request",
    };
    let mut s = String::new();
    match reason {
        Some(m) => {
            s.append(m);
            s.append(". ");
        },
        None => {},
    }
    s.append("You can request a song from Spotify with ");
    s.append(p);
    s.append(" <search>, like \"");
    s.append(p);
    s.append(" queen we will rock you\". You can also use an URI or an URL if you feel adventurous PogChamp");
    Some(s)
}


/// The reply to `!song length`.
pub open spec fn length_spec(count: usize, secs: u64) -> Seq<char> {
    if count == 0 {
        "No songs in queue :("@
    } else if count == 1 {
        "One song in queue with "@ + compact_time_spec(secs as nat) + " of play time."@
    } else {
        decimal(count as nat) + " songs in queue with "@ + compact_time_spec(secs as nat)
            + " of play time."@
    }
}

/// The reply to `!song length` for `count` items playing `secs` seconds.
pub fn length_message(count: usize, secs: u64) -> (r: String)
    ensures
        r@ == length_spec(count, secs),
{
    proof {
        reveal_strlit("No songs in queue :(");
        reveal_strlit("One song in queue with ");
        reveal_strlit(" songs in queue with ");
        reveal_strlit(" of play time.");
    }
    if count == 0 {
        return String::from_str("No songs in queue :(");
    }
    let mut s = String::new();
    if count == 1 {
        s.append("One song in queue with ");
    } else {
        push_decimal(&mut s, count as u128);
        s.append(" songs in queue with ");
    }
    let t = compact_time(secs as u128);
    s.append(t.as_str());
    s.append(" of play time.");
    s
}

/// The reply to `!song when`: `your` when the caller asks after their own
/// songs, `user` the one asked after, `found` the wait in milliseconds and
/// the item, if any.
pub open spec fn when_spec(your: bool, user: Seq<char>, found: Option<(u128, ItemView)>) -> Seq<char> {
    match found {
        Some((wait, item)) => if wait / 1000 == 0 {
            if your {
                "Your song is currently playing cmonBruh"@
            } else {
                user + "'s song "@ + what_spec(item) + " is currently playing"@
            }
        } else {
            let w = compact_time_spec((wait / 1000) as nat);
            if your {
                "Your song "@ + what_spec(item) + " will play in "@ + w
            } else {
                user + "'s song "@ + what_spec(item) + " will play in "@ + w
            }
        },
        None => if your {
            "You don't have any songs in queue :("@
        } else {
            user + " doesn't have any songs in queue :("@
        },
    }
}

/// The reply to `!song when`.
pub fn when_message(your: bool, user: &str, found: &Option<(u128, Item)>) -> (r: String)
    ensures
        r@ == when_spec(
            your,
            user@,
            match found {
                Some(f) => Some((f.0, f.1@)),
                None => None,
            },
        ),
{
    proof {
        reveal_strlit("Your song is currently playing cmonBruh");
        reveal_strlit("'s song ");
        reveal_strlit(" is currently playing");
        reveal_strlit("Your song ");
        reveal_strlit(" will play in ");
        reveal_strlit("You don't have any songs in queue :(");
        reveal_strlit(" doesn't have any songs in queue :(");
    }
    let mut s = String::new();
    match found {
        Some((wait, item)) => {
            let secs = *wait / 1000;
            if secs == 0 && your {
                s.append("Your song is currently playing cmonBruh");
                return s;
            }
            if your {
                s.append("Your song ");
            } else {
                s.append(user);
                s.append("'s song ");
            }
            let what = item.what();
            s.append(what.as_str());
            if secs == 0 {
                s.append(" is currently playing");
            } else {
                s.append(" will play in ");
                let w = compact_time(secs);
                s.append(w.as_str());
            }
        },
        None => {
            if your {
                s.append("You don't have any songs in queue :(");
            } else {
                s.append(user);
                s.append(" doesn't have any songs in queue :(");
            }
        },
    }
    s
}


pub open spec fn removed_spec(item: Option<ItemView>) -> Seq<char> {
    match item {
        Some(i) => "Removed: "@ + what_spec(i) + "!"@,
        None => "No song removed, sorry :("@,
    }
}

/// The reply to `!song delete`, given what was removed.
pub fn removed_message(item: &Option<Item>) -> (r: String)
    ensures
        r@ == removed_spec(crate::engine::opt_item_view(*item)),
{
    proof {
        reveal_strlit("Removed: ");
        reveal_strlit("!");
        reveal_strlit("No song removed, sorry :(");
    }
    match item {
        Some(i) => {
            let mut s = String::from_str("Removed: ");
            let what = i.what();
            s.append(what.as_str());
            s.append("!");
            s
        },
        None => String::from_str("No song removed, sorry :("),
    }
}

pub open spec fn promoted_spec(item: Option<ItemView>) -> Seq<char> {
    match item {
        Some(i) => "Promoted song to head of queue: "@ + what_spec(i),
        None => "No such song to promote"@,
    }
}

/// The reply to `!song promote`, given the new head of the queue.
pub fn promoted_message(item: &Option<Item>) -> (r: String)
    ensures
        r@ == promoted_spec(crate::engine::opt_item_view(*item)),
{
    proof {
        reveal_strlit("Promoted song to head of queue: ");
        reveal_strlit("No such song to promote");
    }
    match item {
        Some(i) => {
            let mut s = String::from_str("Promoted song to head of queue: ");
            let what = i.what();
            s.append(what.as_str());
            s
        },
        None => String::from_str("No such song to promote"),
    }
}

pub open spec fn malformed_spec(e: crate::parse::ParseTrackIdError) -> Seq<char> {
    match e {
        crate::parse::ParseTrackIdError::BadSpotifyId => "That is not a valid Spotify track, sorry :("@,
        crate::parse::ParseTrackIdError::BadYouTubeId => "That is not a valid YouTube video, sorry :("@,
        crate::parse::ParseTrackIdError::MissingUriPrefix => "Could not find a track matching your request, sorry :("@,
    }
}

/// The reply to a request whose link or id is malformed.
pub fn malformed_message(e: crate::parse::ParseTrackIdError) -> (r: String)
    ensures
        r@ == malformed_spec(e),
{
    proof {
        reveal_strlit("That is not a valid Spotify track, sorry :(");
        reveal_strlit("That is not a valid YouTube video, sorry :(");
        reveal_strlit("Could not find a track matching your request, sorry :(");
    }
    match e {
        crate::parse::ParseTrackIdError::BadSpotifyId => String::from_str(
            "That is not a valid Spotify track, sorry :(",
        ),
        crate::parse::ParseTrackIdError::BadYouTubeId => String::from_str(
            "That is not a valid YouTube video, sorry :(",
        ),
        crate::parse::ParseTrackIdError::MissingUriPrefix => String::from_str(
            "Could not find a track matching your request, sorry :(",
        ),
    }
}

/// The reply to a refused `!song` command, if any: arguments that are
/// missing or malformed, and unknown commands, are explained; moderator-only
/// commands, and `promote` without a position, are refused silently.
pub open spec fn command_error_spec(e: crate::command::SongCommandError) -> Option<Seq<char>> {
    match e {
        crate::command::SongCommandError::NotModerator => None,
        crate::command::SongCommandError::Unknown => Some("Expected argument to !song command."@),
        crate::command::SongCommandError::BadPosition(PositionError::Current) => Some(
            "Can't mess with the current song :("@,
        ),
        crate::command::SongCommandError::BadPosition(PositionError::NotANumber) => Some(
            "Expected whole number argument"@,
        ),
        crate::command::SongCommandError::BadVolume => Some("expected whole number argument"@),
        crate::command::SongCommandError::NoThemeName => Some(
            "expected !song theme <name> to play a theme song"@,
        ),
        crate::command::SongCommandError::NoPosition => None,
        crate::command::SongCommandError::NoDeleteTarget => Some(
            "Expected: last, last <user>, or mine"@,
        ),
    }
}

/// The reply to a refused `!song` command.
pub fn command_error_message(e: crate::command::SongCommandError) -> (r: Option<String>)
    ensures
        match r {
            Some(m) => command_error_spec(e) == Some(m@),
            None => command_error_spec(e) is None,
        },
{
    proof {
        reveal_strlit("Expected argument to !song command.");
        reveal_strlit("Can't mess with the current song :(");
        reveal_strlit("Expected whole number argument");
        reveal_strlit("expected whole number argument");
        reveal_strlit("expected !song theme <name> to play a theme song");
        reveal_strlit("Expected: last, last <user>, or mine");
    }
    match e {
        crate::command::SongCommandError::NotModerator => None,
        crate::command::SongCommandError::Unknown => Some(String::from_str("Expected argument to !song command.")),
        crate::command::SongCommandError::BadPosition(PositionError::Current) => Some(
            String::from_str("Can't mess with the current song :("),
        ),
        crate::command::SongCommandError::BadPosition(PositionError::NotANumber) => Some(
            String::from_str("Expected whole number argument"),
        ),
        crate::command::SongCommandError::BadVolume => Some(String::from_str("expected whole number argument")),
        crate::command::SongCommandError::NoThemeName => Some(
            String::from_str("expected !song theme <name> to play a theme song"),
        ),
        crate::command::SongCommandError::NoPosition => None,
        crate::command::SongCommandError::NoDeleteTarget => Some(
            String::from_str("Expected: last, last <user>, or mine"),
        ),
    }
}


/// A number of at least two digits.
pub open spec fn two_digits(n: nat) -> Seq<char> {
    if n < 10 {
        "0"@ + decimal(n)
    } else {
        decimal(n)
    }
}

/// A number of seconds as a clock shows it: `m:ss`, or `h:mm:ss` from an
/// hour on.
pub open spec fn digital_spec(t: nat) -> Seq<char> {
    if t >= 3600 {
        decimal(t / 3600) + ":"@ + two_digits((t / 60) % 60) + ":"@ + two_digits(t % 60)
    } else {
        decimal(t / 60) + ":"@ + two_digits(t % 60)
    }
}

fn push_two_digits(s: &mut String, n: u128)
    ensures
        final(s)@ == old(s)@ + two_digits(n as nat),
{
    if n < 10 {
        proof {
            reveal_strlit("0");
        }
        s.append("0");
    }
    push_decimal(s, n);
    assert(final(s)@ =~= old(s)@ + two_digits(n as nat));
}

fn push_digital(s: &mut String, t: u128)
    ensures
        final(s)@ == old(s)@ + digital_spec(t as nat),
{
    proof {
        reveal_strlit(":");
    }
    if t >= 3600 {
        push_decimal(s, t / 3600);
        s.append(":");
        push_two_digits(s, (t / 60) % 60);
    } else {
        push_decimal(s, t / 60);
    }
    s.append(":");
    push_two_digits(s, t % 60);
    assert(final(s)@ =~= old(s)@ + digital_spec(t as nat));
}

/// The reply to `!song current` for the loaded `item`, `elapsed_ms` into it.
pub open spec fn current_spec(item: ItemView, elapsed_ms: nat) -> Seq<char> {
    "Current song: "@ + what_spec(item) + match item.user {
        Some(u) => ", requested by "@ + u,
        None => Seq::empty(),
    } + " - "@ + digital_spec(elapsed_ms / 1000) + " / "@ + digital_spec(
        (item.duration_ms / 1000) as nat,
    ) + " - "@ + crate::track::url_spec(item.track_id)
}

/// The reply to `!song current`: the item, its requester, how far it has
/// played out of how long, and its link; or that nothing plays.
pub fn current_message(current: &Option<(Item, u128)>) -> (r: String)
    ensures
        match current {
            Some(c) => r@ == current_spec(c.0@, c.1 as nat),
            None => r@ == "No song :("@,
        },
{
    proof {
        reveal_strlit("No song :(");
        reveal_strlit("Current song: ");
        reveal_strlit(", requested by ");
        reveal_strlit(" - ");
        reveal_strlit(" / ");
    }
    match current {
        None => String::from_str("No song :("),
        Some((item, elapsed)) => {
            let mut s = String::from_str("Current song: ");
            let what = item.what();
            s.append(what.as_str());
            match &item.user {
                Some(u) => {
                    s.append(", requested by ");
                    s.append(u.as_str());
                },
                None => {},
            }
            s.append(" - ");
            push_digital(&mut s, *elapsed / 1000);
            s.append(" / ");
            push_digital(&mut s, (item.duration_ms / 1000) as u128);
            s.append(" - ");
            let url = item.track_id.url();
            s.append(url.as_str());
            s
        },
    }
}

/// The reply to reading (`set` false) or setting the volume.
pub fn volume_message(volume: u32, set: bool) -> (r: String)
    ensures
        set ==> r@ == "Volume set to "@ + decimal(volume as nat) + "."@,
        !set ==> r@ == "Current volume: "@ + decimal(volume as nat) + "."@,
{
    proof {
        reveal_strlit("Volume set to ");
        reveal_strlit("Current volume: ");
        reveal_strlit(".");
    }
    let mut s = if set {
        String::from_str("Volume set to ")
    } else {
        String::from_str("Current volume: ")
    };
    push_decimal(&mut s, volume as u128);
    s.append(".");
    s
}

} // verus!
