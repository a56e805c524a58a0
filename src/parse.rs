use vstd::prelude::*;

use vstd::string::{StringExecFns, StringSliceAdditionalSpecFns};
use vstd::utf8::{
    encode_utf8, encode_utf8_valid_utf8, is_char_boundary_iff_not_is_continuation_byte,
    is_char_boundary_start_end_of_seq,
};

use crate::admission::AddTrackError;
use crate::track::{Provider, TrackId};

verus! {

/// Why a request's text is not a track identifier.
#[derive(Debug, Clone, Copy, PartialEq, Eq, Structural)]
pub enum ParseTrackIdError {
    /// The text is no track URL or URI at all.
    MissingUriPrefix,
    /// A Spotify URL or URI with a malformed track id.
    BadSpotifyId,
    /// A YouTube URL or URI with a malformed video id.
    BadYouTubeId,
}

pub open spec fn has_prefix(b: Seq<u8>, p: Seq<u8>) -> bool {
    p.len() <= b.len() && b.subrange(0, p.len() as int) == p
}

pub open spec fn is_base62(c: u8) -> bool {
    (48 <= c <= 57) || (65 <= c <= 90) || (97 <= c <= 122)
}

/// A Spotify track id: 22 base-62 digits.
pub open spec fn valid_spotify_id(id: Seq<u8>) -> bool {
    id.len() == 22 && forall|i: int| 0 <= i < id.len() ==> is_base62(#[trigger] id[i])
}

/// A YouTube video id: 11 characters out of letters, digits, `-` and `_`.
pub open spec fn valid_youtube_id(id: Seq<u8>) -> bool {
    id.len() == 11 && forall|i: int|
        0 <= i < id.len() ==> is_base62(#[trigger] id[i]) || id[i] == 45 || id[i] == 95
}

/// The id that follows a prefix of length `start`: up to the first `?` or
/// `&`, or to the end.
pub open spec fn id_end(b: Seq<u8>, i: int) -> int
    decreases b.len() - i,
{
    if i >= b.len() {
        b.len() as int
    } else if b[i] == 63 || b[i] == 38 {
        i
    } else {
        id_end(b, i + 1)
    }
}

pub open spec fn spotify_uri() -> Seq<u8> {
    "spotify:track:".spec_bytes()
}

pub open spec fn spotify_url() -> Seq<u8> {
    "https://open.spotify.com/track/".spec_bytes()
}

pub open spec fn youtube_uri() -> Seq<u8> {
    "youtube:video:".spec_bytes()
}

pub open spec fn youtube_url() -> Seq<u8> {
    "https://www.youtube.com/watch?v=".spec_bytes()
}

pub open spec fn youtube_short_url() -> Seq<u8> {
    "https://youtu.be/".spec_bytes()
}

/// The id after prefix `p` in `b`, checked by `valid`.
pub open spec fn id_after(b: Seq<u8>, p: Seq<u8>) -> Seq<u8> {
    b.subrange(p.len() as int, id_end(b, p.len() as int))
}

/// What the text `b` names: a provider and the bytes of its id, or why it
/// names nothing. URIs and URLs of either provider are recognized, and a
/// bare Spotify id; anything else is no identifier at all.
pub open spec fn parse_spec(b: Seq<u8>) -> Result<(Provider, Seq<u8>), ParseTrackIdError> {
    if has_prefix(b, spotify_uri()) || has_prefix(b, spotify_url()) {
        let p = if has_prefix(b, spotify_uri()) {
            spotify_uri()
        } else {
            spotify_url()
        };
        let id = id_after(b, p);
        if valid_spotify_id(id) {
            Ok((Provider::Spotify, id))
        } else {
            Err(ParseTrackIdError::BadSpotifyId)
        }
    } else if has_prefix(b, youtube_uri()) || has_prefix(b, youtube_url()) || has_prefix(
        b,
        youtube_short_url(),
    ) {
        let p = if has_prefix(b, youtube_uri()) {
            youtube_uri()
        } else if has_prefix(b, youtube_url()) {
            youtube_url()
        } else {
            youtube_short_url()
        };
        let id = id_after(b, p);
        if valid_youtube_id(id) {
            Ok((Provider::YouTube, id))
        } else {
            Err(ParseTrackIdError::BadYouTubeId)
        }
    } else if valid_spotify_id(b) {
        Ok((Provider::Spotify, b))
    } else {
        Err(ParseTrackIdError::MissingUriPrefix)
    }
}

fn starts_with(b: &[u8], p: &str) -> (r: bool)
    ensures
        r == has_prefix(b@, p.spec_bytes()),
{
    let pb = p.as_bytes();
    if pb.len() > b.len() {
        return false;
    }
    let mut i: usize = 0;
    while i < pb.len()
        invariant
            i <= pb@.len() <= b@.len(),
            pb@ == p.spec_bytes(),
            b@.subrange(0, i as int) == pb@.subrange(0, i as int),
        decreases pb@.len() - i,
    {
        if b[i] != pb[i] {
            proof {
                assert(b@.subrange(0, pb@.len() as int)[i as int] != pb@[i as int]);
            }
            return false;
        }
        proof {
            assert(b@.subrange(0, i + 1) =~= pb@.subrange(0, i + 1));
        }
        i = i + 1;
    }
    proof {
        assert(pb@.subrange(0, i as int) =~= pb@);
    }
    true
}

fn find_id_end(b: &[u8], from: usize) -> (r: usize)
    requires
        from <= b@.len(),
    ensures
        r == id_end(b@, from as int),
        from <= r <= b@.len(),
{
    let mut i = from;
    while i < b.len()
        invariant
            from <= i <= b@.len(),
            id_end(b@, from as int) == id_end(b@, i as int),
        decreases b@.len() - i,
    {
        if b[i] == 63 || b[i] == 38 {
            return i;
        }
        i = i + 1;
    }
    i
}

fn check_id(b: &[u8], start: usize, end: usize, youtube: bool) -> (r: bool)
    requires
        start <= end <= b@.len(),
    ensures
        !youtube ==> r == valid_spotify_id(b@.subrange(start as int, end as int)),
        youtube ==> r == valid_youtube_id(b@.subrange(start as int, end as int)),
{
    let ghost id = b@.subrange(start as int, end as int);
    let want: usize = if youtube {
        11
    } else {
        22
    };
    if end - start != want {
        return false;
    }
    let mut i = start;
    while i < end
        invariant
            start <= i <= end <= b@.len(),
            id == b@.subrange(start as int, end as int),
            forall|k: int|
                0 <= k < i - start ==> is_base62(#[trigger] id[k]) || (youtube && (id[k] == 45
                    || id[k] == 95)),
        decreases end - i,
    {
        let c = b[i];
        let ok = (48 <= c && c <= 57) || (65 <= c && c <= 90) || (97 <= c && c <= 122) || (youtube
            && (c == 45 || c == 95));
        if !ok {
            proof {
                assert(id[i - start] == c);
            }
            return false;
        }
        i = i + 1;
    }
    true
}

/// The track of a valid id at `start..end` of the text `s`.
fn make_id(s: &str, start: usize, end: usize, youtube: bool) -> (r: TrackId)
    requires
        start < end <= s.spec_bytes().len(),
        forall|i: int| start <= i < end ==> (#[trigger] s.spec_bytes()[i]) < 128,
        end < s.spec_bytes().len() ==> s.spec_bytes()[end as int] < 128,
    ensures
        r@.0 == (if youtube {
            Provider::YouTube
        } else {
            Provider::Spotify
        }),
        encode_utf8(r@.1) == s.spec_bytes().subrange(start as int, end as int),
{
    let ghost bs = s.spec_bytes();
    proof {
        encode_utf8_valid_utf8(s@);
        is_char_boundary_iff_not_is_continuation_byte(bs, start as int);
        if end < bs.len() {
            is_char_boundary_iff_not_is_continuation_byte(bs, end as int);
        } else {
            is_char_boundary_start_end_of_seq(bs);
        }
    }
    let (_, tail) = s.split_at(start);
    let ghost tb = tail.spec_bytes();
    proof {
        encode_utf8_valid_utf8(tail@);
        assert(tb =~= bs.subrange(start as int, bs.len() as int));
        if end < bs.len() {
            assert(tb[end - start] == bs[end as int]);
            is_char_boundary_iff_not_is_continuation_byte(tb, end - start);
        } else {
            is_char_boundary_start_end_of_seq(tb);
        }
    }
    let (word, _) = tail.split_at(end - start);
    proof {
        assert(word.spec_bytes() =~= bs.subrange(start as int, end as int));
    }
    let id = String::from_str(word);
    if youtube {
        TrackId::YouTube(id)
    } else {
        TrackId::Spotify(id)
    }
}

/// The outcome of parsing `s` as a URL or URI with prefix `p`: `None` when
/// `s` does not start with `p`.
fn try_prefix(s: &str, p: &str, youtube: bool) -> (r: Option<Result<TrackId, ParseTrackIdError>>)
    ensures
        !has_prefix(s.spec_bytes(), p.spec_bytes()) ==> r is None,
        has_prefix(s.spec_bytes(), p.spec_bytes()) ==> ({
            let id = id_after(s.spec_bytes(), p.spec_bytes());
            let valid = if youtube {
                valid_youtube_id(id)
            } else {
                valid_spotify_id(id)
            };
            &&& valid ==> (r matches Some(Ok(t)) && t@.0 == (if youtube {
                Provider::YouTube
            } else {
                Provider::Spotify
            }) && encode_utf8(t@.1) == id)
            &&& !valid ==> r == Some(
                Err::<TrackId, ParseTrackIdError>(
                    if youtube {
                        ParseTrackIdError::BadYouTubeId
                    } else {
                        ParseTrackIdError::BadSpotifyId
                    },
                ),
            )
        }),
{
    let b = s.as_bytes();
    if !starts_with(b, p) {
        return None;
    }
    let start = p.as_bytes().len();
    let end = find_id_end(b, start);
    if !check_id(b, start, end, youtube) {
        return Some(
            Err(
                if youtube {
                    ParseTrackIdError::BadYouTubeId
                } else {
                    ParseTrackIdError::BadSpotifyId
                },
            ),
        );
    }
    proof {
        let id = b@.subrange(start as int, end as int);
        assert forall|i: int| start <= i < end implies (#[trigger] b@[i]) < 128 by {
            assert(id[i - start] == b@[i]);
        }
        lemma_id_end_stops(b@, start as int);
    }
    Some(Ok(make_id(s, start, end, youtube)))
}

proof fn lemma_id_end_stops(b: Seq<u8>, i: int)
    requires
        0 <= i <= b.len(),
    ensures
        id_end(b, i) < b.len() ==> b[id_end(b, i)] == 63 || b[id_end(b, i)] == 38,
    decreases b.len() - i,
{
    if i < b.len() && !(b[i] == 63 || b[i] == 38) {
        lemma_id_end_stops(b, i + 1);
    }
}

/// Parses a request's text as a Spotify or YouTube URL or URI, or as a bare
/// Spotify id. Text that is none of these gives `MissingUriPrefix`, the cue
/// to search for it instead.
pub fn parse_track_id(s: &str) -> (r: Result<TrackId, ParseTrackIdError>)
    ensures
        match parse_spec(s.spec_bytes()) {
            Ok((p, id)) => r matches Ok(t) && t@.0 == p && encode_utf8(t@.1) == id,
            Err(e) => r == Err::<TrackId, ParseTrackIdError>(e),
        },
{
    match try_prefix(s, "spotify:track:", false) {
        Some(r) => return r,
        None => {},
    }
    match try_prefix(s, "https://open.spotify.com/track/", false) {
        Some(r) => return r,
        None => {},
    }
    match try_prefix(s, "youtube:video:", true) {
        Some(r) => return r,
        None => {},
    }
    match try_prefix(s, "https://www.youtube.com/watch?v=", true) {
        Some(r) => return r,
        None => {},
    }
    match try_prefix(s, "https://youtu.be/", true) {
        Some(r) => return r,
        None => {},
    }
    let b = s.as_bytes();
    proof {
        assert(b@.subrange(0, b@.len() as int) =~= b@);
    }
    if b.len() > 0 && check_id(b, 0, b.len(), false) {
        proof {
            assert forall|i: int| 0 <= i < b@.len() implies (#[trigger] b@[i]) < 128 by {
                assert(b@.subrange(0, b@.len() as int)[i] == b@[i]);
            }
        }
        return Ok(make_id(s, 0, b.len(), false));
    }
    Err(ParseTrackIdError::MissingUriPrefix)
}

/// What to do next with a request's text.
#[derive(Debug, PartialEq)]
pub enum RequestRoute {
    /// Request this track.
    Track(TrackId),
    /// Search the catalog for the text.
    Search,
    /// Tell the requester that the text is a malformed URL or URI.
    Malformed(ParseTrackIdError),
}

/// The first step of a request: use a parsed track, search when the text is
/// no URL or URI, and report any other parse error without searching.
pub fn route_request(parsed: Result<TrackId, ParseTrackIdError>) -> (r: RequestRoute)
    ensures
        parsed matches Ok(t) ==> (r matches RequestRoute::Track(u) && u@ == t@),
        parsed == Err::<TrackId, ParseTrackIdError>(ParseTrackIdError::MissingUriPrefix) ==> r is Search,
        parsed is Err && parsed->Err_0 != ParseTrackIdError::MissingUriPrefix ==> r
            == RequestRoute::Malformed(parsed->Err_0),
{
    match parsed {
        Ok(t) => RequestRoute::Track(t),
        Err(ParseTrackIdError::MissingUriPrefix) => RequestRoute::Search,
        Err(e) => RequestRoute::Malformed(e),
    }
}

/// The outcome of a catalog search: its top match, or a refusal when there
/// is none.
pub fn search_result(found: Option<TrackId>) -> (r: Result<TrackId, AddTrackError>)
    ensures
        found matches Some(t) ==> (r matches Ok(u) && u@ == t@),
        found is None ==> r matches Err(AddTrackError::NotFound),
{
    match found {
        Some(t) => Ok(t),
        None => Err(AddTrackError::NotFound),
    }
}

} // verus!
