use vstd::prelude::*;

use vstd::string::StringExecFns;

use crate::text::{compact_time, compact_time_spec, human_artists, human_list};

verus! {

/// The service that a track comes from.
#[derive(Clone, Copy, Debug, PartialEq, Eq, Structural)]
pub enum Provider {
    Spotify,
    YouTube,
}

/// A provider-tagged track identifier.
#[derive(Debug)]
pub enum TrackId {
    Spotify(String),
    YouTube(String),
}

impl View for TrackId {
    type V = (Provider, Seq<char>);

    open spec fn view(&self) -> (Provider, Seq<char>) {
        match self {
            TrackId::Spotify(s) => (Provider::Spotify, s@),
            TrackId::YouTube(s) => (Provider::YouTube, s@),
        }
    }
}

/// The link to a track.
pub open spec fn url_spec(t: (Provider, Seq<char>)) -> Seq<char> {
    match t.0 {
        Provider::Spotify => "https://open.spotify.com/track/"@ + t.1,
        Provider::YouTube => "https://youtu.be/"@ + t.1,
    }
}

impl TrackId {
    /// The provider this identifier belongs to.
    pub fn provider(&self) -> (r: Provider)
        ensures
            r == self@.0,
    {
        match self {
            TrackId::Spotify(_) => Provider::Spotify,
            TrackId::YouTube(_) => Provider::YouTube,
        }
    }

    /// Whether this is a YouTube track.
    pub fn is_youtube(&self) -> (r: bool)
        ensures
            r == (self@.0 == Provider::YouTube),
    {
        match self {
            TrackId::Spotify(_) => false,
            TrackId::YouTube(_) => true,
        }
    }

    /// A link to the track: Spotify's web player or YouTube's short link.
    pub fn url(&self) -> (r: String)
        ensures
            r@ == url_spec(self@),
    {
        proof {
            reveal_strlit("https://open.spotify.com/track/");
            reveal_strlit("https://youtu.be/");
        }
        let (mut s, id) = match self {
            TrackId::Spotify(id) => (String::from_str("https://open.spotify.com/track/"), id),
            TrackId::YouTube(id) => (String::from_str("https://youtu.be/"), id),
        };
        s.append(id.as_str());
        s
    }

    /// Structural comparison of two identifiers.
    pub fn same(&self, other: &TrackId) -> (r: bool)
        ensures
            r == (self@ == other@),
    {
        match (self, other) {
            (TrackId::Spotify(a), TrackId::Spotify(b)) => *a == *b,
            (TrackId::YouTube(a), TrackId::YouTube(b)) => *a == *b,
            _ => false,
        }
    }
}

impl Clone for TrackId {
    fn clone(&self) -> (r: Self)
        ensures
            r@ == self@,
    {
        match self {
            TrackId::Spotify(s) => TrackId::Spotify(s.clone()),
            TrackId::YouTube(s) => TrackId::YouTube(s.clone()),
        }
    }
}

impl PartialEq for TrackId {
    fn eq(&self, other: &TrackId) -> (r: bool) {
        self.same(other)
    }
}

impl vstd::std_specs::cmp::PartialEqSpecImpl for TrackId {
    open spec fn obeys_eq_spec() -> bool {
        true
    }

    open spec fn eq_spec(&self, other: &TrackId) -> bool {
        self@ == other@
    }
}

/// Where the currently loaded track came from.
#[derive(Clone, Copy, Debug, PartialEq, Eq, Structural)]
pub enum Origin {
    Injected,
    Fallback,
    Queue,
}

/// A playable track with its resolved metadata and its requester, if any.
#[derive(Debug, PartialEq)]
pub struct Item {
    pub track_id: TrackId,
    pub artists: Vec<String>,
    pub name: String,
    pub user: Option<String>,
    /// Length of the track in milliseconds.
    pub duration_ms: u64,
}

/// The mathematical value of an [`Item`].
pub struct ItemView {
    pub track_id: (Provider, Seq<char>),
    pub artists: Seq<Seq<char>>,
    pub name: Seq<char>,
    pub user: Option<Seq<char>>,
    pub duration_ms: u64,
}

pub open spec fn opt_str_view(s: Option<String>) -> Option<Seq<char>> {
    match s {
        Some(u) => Some(u@),
        None => None,
    }
}

impl View for Item {
    type V = ItemView;

    open spec fn view(&self) -> ItemView {
        ItemView {
            track_id: self.track_id@,
            artists: self.artists@.map_values(|a: String| a@),
            name: self.name@,
            user: opt_str_view(self.user),
            duration_ms: self.duration_ms,
        }
    }
}

/// Copies a list of strings.
pub fn clone_strings(v: &Vec<String>) -> (r: Vec<String>)
    ensures
        r@.map_values(|a: String| a@) == v@.map_values(|a: String| a@),
{
    let mut r: Vec<String> = Vec::new();
    let mut i: usize = 0;
    while i < v.len()
        invariant
            i <= v.len(),
            r@.len() == i,
            forall|k: int| 0 <= k < i ==> #[trigger] r@[k]@ == v@[k]@,
        decreases v.len() - i,
    {
        r.push(v[i].clone());
        i = i + 1;
    }
    assert(r@.map_values(|a: String| a@) =~= v@.map_values(|a: String| a@));
    r
}

impl Clone for Item {
    fn clone(&self) -> (r: Self)
        ensures
            r@ == self@,
    {
        let user = match &self.user {
            Some(u) => Some(u.clone()),
            None => None,
        };
        Item {
            track_id: self.track_id.clone(),
            artists: clone_strings(&self.artists),
            name: self.name.clone(),
            user,
            duration_ms: self.duration_ms,
        }
    }
}

/// The metadata of a track as the catalog resolves it.
#[derive(Debug, PartialEq)]
pub struct TrackMeta {
    pub artists: Vec<String>,
    pub name: String,
    /// Length of the track in milliseconds.
    pub duration_ms: u64,
}

impl Item {
    /// The item for `track_id` with its resolved metadata, requested by
    /// `user` (nobody for fallback and theme items).
    pub fn from_meta(track_id: TrackId, meta: TrackMeta, user: Option<String>) -> (r: Item)
        ensures
            r@.track_id == track_id@,
            r@.artists == meta.artists@.map_values(|a: String| a@),
            r@.name == meta.name@,
            r@.user == opt_str_view(user),
            r@.duration_ms == meta.duration_ms,
    {
        Item {
            track_id,
            artists: meta.artists,
            name: meta.name,
            user,
            duration_ms: meta.duration_ms,
        }
    }

    /// Whether this item was requested by the named user.
    pub fn requested_by(&self, user: &str) -> (r: bool)
        ensures
            r == (self@.user == Some(user@)),
    {
        match &self.user {
            Some(u) => *u == <String as vstd::string::StringExecFns>::from_str(user),
            None => false,
        }
    }
}


/// What decoding the HTML entities of a string gives: the decoded string, or
/// `None` where the string holds a malformed or unknown entity.
pub uninterp spec fn html_decoded(s: Seq<char>) -> Option<Seq<char>>;

#[verifier::external_type_specification]
#[verifier::external_body]
pub struct ExDecodeErr(htmlescape::DecodeErr);

/// Relies on `htmlescape::decode_html`: the string with its HTML entities
/// decoded, or an error; the outcome depends on the input alone.
#[verifier::external_body]
fn decode_html(s: &str) -> (r: Result<String, htmlescape::DecodeErr>)
    ensures
        r is Ok <==> html_decoded(s@) is Some,
        r matches Ok(d) ==> d@ == html_decoded(s@)->0,
{
    htmlescape::decode_html(s)
}

/// The name of a track could not be decoded.
#[derive(Debug, Clone, Copy, PartialEq, Eq, Structural)]
pub struct NameDecodeError;

/// Serializable data of a playback item.
#[derive(Debug, PartialEq)]
pub struct ItemData {
    pub paused: bool,
    pub track_id: TrackId,
    pub name: String,
    pub artists: Option<String>,
    pub user: Option<String>,
    pub duration: String,
}

pub open spec fn quoted(s: Seq<char>) -> Seq<char> {
    "\""@ + s + "\""@
}

/// The human readable form of an item: its quoted name, followed by its
/// artists when it has any.
pub open spec fn what_spec(i: ItemView) -> Seq<char> {
    if i.artists.len() > 0 {
        quoted(i.name) + " by "@ + human_list(i.artists)
    } else {
        quoted(i.name)
    }
}

impl Item {
    /// Human readable version of playback item.
    pub fn what(&self) -> (r: String)
        ensures
            r@ == what_spec(self@),
    {
        let mut s = String::new();
        proof {
            reveal_strlit("\"");
            reveal_strlit(" by ");
        }
        s.append("\"");
        s.append(self.name.as_str());
        s.append("\"");
        match human_artists(&self.artists) {
            Some(a) => {
                s.append(" by ");
                s.append(a.as_str());
            },
            None => {},
        }
        assert(s@ =~= what_spec(self@));
        s
    }

    /// Display the short form duration of this track, e.g. 4m32s.
    pub fn duration(&self) -> (r: String)
        ensures
            r@ == compact_time_spec(self.duration_ms as nat / 1000),
    {
        compact_time((self.duration_ms / 1000) as u128)
    }

    /// Serializable data of this item, with `name` as its display name.
    pub fn data_with_name(&self, paused: bool, name: String) -> (r: ItemData)
        ensures
            r.paused == paused,
            r.track_id@ == self.track_id@,
            r.name@ == name@,
            r.artists matches Some(a) ==> self@.artists.len() > 0 && a@ == human_list(self@.artists),
            r.artists is None ==> self@.artists.len() == 0,
            opt_str_view(r.user) == self@.user,
            r.duration@ == compact_time_spec(self.duration_ms as nat / 1000),
    {
        let user = match &self.user {
            Some(u) => Some(u.clone()),
            None => None,
        };
        ItemData {
            paused,
            track_id: self.track_id.clone(),
            name,
            artists: human_artists(&self.artists),
            user,
            duration: self.duration(),
        }
    }

    /// Serializable data of this item, its name with HTML entities decoded.
    pub fn data(&self, paused: bool) -> (r: Result<ItemData, NameDecodeError>)
        ensures
            r is Ok <==> html_decoded(self.name@) is Some,
            r matches Ok(d) ==> d.name@ == html_decoded(self.name@)->0 && d.paused == paused
                && d.track_id@ == self.track_id@ && opt_str_view(d.user) == self@.user
                && d.duration@ == compact_time_spec(self.duration_ms as nat / 1000) && (
            d.artists is None <==> self@.artists.len() == 0) && (d.artists matches Some(a) ==> a@
                == human_list(self@.artists)),
    {
        match decode_html(self.name.as_str()) {
            Ok(name) => Ok(self.data_with_name(paused, name)),
            Err(_) => Err(NameDecodeError),
        }
    }
}

} // verus!
