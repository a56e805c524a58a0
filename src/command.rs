use vstd::prelude::*;

use vstd::string::{StringExecFns, StringSliceAdditionalSpecFns};
use vstd::utf8::encode_utf8;

use crate::chat::{
    parse_bytes, parse_queue_position, parse_unsigned, position_spec, volume_argument, volume_spec,
    PositionError,
};

verus! {

/// A `!song` chat command, with its arguments parsed.
#[derive(Debug, PartialEq)]
pub enum SongCommand {
    /// Request the track the text names or matches.
    Request(String),
    /// `request` without text: explain how to request.
    RequestHelp,
    Theme(String),
    /// Promote the item at this queue index.
    Promote(usize),
    Close(Option<String>),
    Open,
    /// List at most this many items.
    List(usize),
    Current,
    Purge,
    /// When the next song of the named user, or of the caller, plays.
    When(Option<String>),
    DeleteLast,
    DeleteLastBy(String),
    DeleteMine,
    /// Delete the item at this queue index.
    DeleteAt(usize),
    ReadVolume,
    SetVolume(u32),
    Skip,
    Toggle,
    Play,
    Pause,
    Length,
}

pub enum SongCommandView {
    Request(Seq<char>),
    RequestHelp,
    Theme(Seq<char>),
    Promote(usize),
    Close(Option<Seq<char>>),
    Open,
    List(usize),
    Current,
    Purge,
    When(Option<Seq<char>>),
    DeleteLast,
    DeleteLastBy(Seq<char>),
    DeleteMine,
    DeleteAt(usize),
    ReadVolume,
    SetVolume(u32),
    Skip,
    Toggle,
    Play,
    Pause,
    Length,
}

impl View for SongCommand {
    type V = SongCommandView;

    open spec fn view(&self) -> SongCommandView {
        match self {
            SongCommand::Request(t) => SongCommandView::Request(t@),
            SongCommand::RequestHelp => SongCommandView::RequestHelp,
            SongCommand::Theme(t) => SongCommandView::Theme(t@),
            SongCommand::Promote(n) => SongCommandView::Promote(*n),
            SongCommand::Close(r) => SongCommandView::Close(crate::track::opt_str_view(*r)),
            SongCommand::Open => SongCommandView::Open,
            SongCommand::List(n) => SongCommandView::List(*n),
            SongCommand::Current => SongCommandView::Current,
            SongCommand::Purge => SongCommandView::Purge,
            SongCommand::When(u) => SongCommandView::When(crate::track::opt_str_view(*u)),
            SongCommand::DeleteLast => SongCommandView::DeleteLast,
            SongCommand::DeleteLastBy(u) => SongCommandView::DeleteLastBy(u@),
            SongCommand::DeleteMine => SongCommandView::DeleteMine,
            SongCommand::DeleteAt(n) => SongCommandView::DeleteAt(*n),
            SongCommand::ReadVolume => SongCommandView::ReadVolume,
            SongCommand::SetVolume(v) => SongCommandView::SetVolume(*v),
            SongCommand::Skip => SongCommandView::Skip,
            SongCommand::Toggle => SongCommandView::Toggle,
            SongCommand::Play => SongCommandView::Play,
            SongCommand::Pause => SongCommandView::Pause,
            SongCommand::Length => SongCommandView::Length,
        }
    }
}

/// Why a `!song` command is not run.
#[derive(Debug, Clone, Copy, PartialEq, Eq, Structural)]
pub enum SongCommandError {
    /// The command is for moderators.
    NotModerator,
    /// No such command.
    Unknown,
    /// The queue position is not one.
    BadPosition(PositionError),
    /// The volume argument is not a whole number.
    BadVolume,
    /// `theme` without a theme name.
    NoThemeName,
    /// `promote` without a position.
    NoPosition,
    /// `delete` without `last`, `mine` or a position.
    NoDeleteTarget,
}

/// What lowercasing a string gives.
pub uninterp spec fn lower_of(s: Seq<char>) -> Seq<char>;

/// Relies on `str::to_lowercase`: the result depends on the characters alone.
#[verifier::external_body]
fn lowercase(s: &str) -> (r: String)
    ensures
        r@ == lower_of(s@),
{
    s.to_lowercase()
}

/// Words joined by single spaces.
pub open spec fn joined(ws: Seq<Seq<char>>) -> Seq<char>
    decreases ws.len(),
{
    if ws.len() == 0 {
        Seq::empty()
    } else if ws.len() == 1 {
        ws[0]
    } else {
        joined(ws.drop_last()) + " "@ + ws.last()
    }
}

pub open spec fn moderated(m: bool, c: SongCommandView) -> Result<SongCommandView, SongCommandError> {
    if m {
        Ok(c)
    } else {
        Err(SongCommandError::NotModerator)
    }
}

pub open spec fn position_command(b: Seq<u8>, promote: bool) -> Result<SongCommandView, SongCommandError> {
    match position_spec(b) {
        Ok(n) => Ok(
            if promote {
                SongCommandView::Promote(n)
            } else {
                SongCommandView::DeleteAt(n)
            },
        ),
        Err(e) => Err(SongCommandError::BadPosition(e)),
    }
}

/// The command that the words after `!song` give. Moderators alone may skip,
/// toggle, play, pause, set the volume, list a chosen number of items, ask
/// after another user, delete anything but their own last request, promote,
/// purge, close, open and play themes. Moderator status is checked before
/// the arguments are.
pub open spec fn song_command_spec(ws: Seq<Seq<char>>, m: bool, volume: u32) -> Result<
    SongCommandView,
    SongCommandError,
> {
    if ws.len() == 0 {
        Err(SongCommandError::Unknown)
    } else {
        let c = ws[0];
        let rest = ws.drop_first();
        if c == "request"@ {
            if rest.len() == 0 {
                Ok(SongCommandView::RequestHelp)
            } else {
                Ok(SongCommandView::Request(joined(rest)))
            }
        } else if c == "theme"@ {
            if !m {
                Err(SongCommandError::NotModerator)
            } else if rest.len() == 0 {
                Err(SongCommandError::NoThemeName)
            } else {
                Ok(SongCommandView::Theme(rest[0]))
            }
        } else if c == "promote"@ {
            if !m {
                Err(SongCommandError::NotModerator)
            } else if rest.len() == 0 {
                Err(SongCommandError::NoPosition)
            } else {
                position_command(encode_utf8(rest[0]), true)
            }
        } else if c == "close"@ {
            moderated(
                m,
                SongCommandView::Close(
                    if rest.len() == 0 {
                        None
                    } else {
                        Some(joined(rest))
                    },
                ),
            )
        } else if c == "open"@ {
            moderated(m, SongCommandView::Open)
        } else if c == "list"@ {
            if rest.len() == 0 {
                Ok(SongCommandView::List(3))
            } else if !m {
                Err(SongCommandError::NotModerator)
            } else {
                Ok(
                    SongCommandView::List(
                        match parse_unsigned(encode_utf8(rest[0]), usize::MAX as nat) {
                            Some(n) => n as usize,
                            None => 3,
                        },
                    ),
                )
            }
        } else if c == "current"@ {
            Ok(SongCommandView::Current)
        } else if c == "purge"@ {
            moderated(m, SongCommandView::Purge)
        } else if c == "when"@ {
            if rest.len() == 0 {
                Ok(SongCommandView::When(None))
            } else {
                moderated(m, SongCommandView::When(Some(lower_of(rest[0]))))
            }
        } else if c == "delete"@ {
            if rest.len() == 0 {
                Err(SongCommandError::NoDeleteTarget)
            } else if rest[0] == "last"@ {
                if !m {
                    Err(SongCommandError::NotModerator)
                } else if rest.len() > 1 {
                    Ok(SongCommandView::DeleteLastBy(lower_of(rest[1])))
                } else {
                    Ok(SongCommandView::DeleteLast)
                }
            } else if rest[0] == "mine"@ {
                Ok(SongCommandView::DeleteMine)
            } else if !m {
                Err(SongCommandError::NotModerator)
            } else {
                position_command(encode_utf8(rest[0]), false)
            }
        } else if c == "volume"@ {
            if rest.len() == 0 {
                Ok(SongCommandView::ReadVolume)
            } else if !m {
                Err(SongCommandError::NotModerator)
            } else {
                match volume_spec(volume, encode_utf8(rest[0])) {
                    Some(v) => Ok(SongCommandView::SetVolume(v)),
                    None => Err(SongCommandError::BadVolume),
                }
            }
        } else if c == "skip"@ {
            moderated(m, SongCommandView::Skip)
        } else if c == "toggle"@ {
            moderated(m, SongCommandView::Toggle)
        } else if c == "play"@ {
            moderated(m, SongCommandView::Play)
        } else if c == "pause"@ {
            moderated(m, SongCommandView::Pause)
        } else if c == "length"@ {
            Ok(SongCommandView::Length)
        } else {
            Err(SongCommandError::Unknown)
        }
    }
}

pub open spec fn command_result_view(r: Result<SongCommand, SongCommandError>) -> Result<
    SongCommandView,
    SongCommandError,
> {
    match r {
        Ok(c) => Ok(c@),
        Err(e) => Err(e),
    }
}

pub open spec fn word_views(ws: Seq<String>) -> Seq<Seq<char>> {
    ws.map_values(|w: String| w@)
}

/// Joins `ws[from..]` with single spaces.
fn join_from(ws: &Vec<String>, from: usize) -> (r: String)
    requires
        from <= ws@.len(),
    ensures
        r@ == joined(word_views(ws@).subrange(from as int, ws@.len() as int)),
{
    let mut s = String::new();
    let mut i = from;
    proof {
        reveal_strlit(" ");
        assert(word_views(ws@).subrange(from as int, from as int) =~= Seq::<Seq<char>>::empty());
    }
    while i < ws.len()
        invariant
            from <= i <= ws@.len(),
            s@ == joined(word_views(ws@).subrange(from as int, i as int)),
        decreases ws@.len() - i,
    {
        proof {
            let sub = word_views(ws@).subrange(from as int, i + 1);
            assert(sub.drop_last() =~= word_views(ws@).subrange(from as int, i as int));
        }
        if i > from {
            s.append(" ");
        }
        s.append(ws[i].as_str());
        i = i + 1;
    }
    s
}

/// Whether `w` is the word `lit`.
fn is_word(w: &String, lit: &str) -> (r: bool)
    ensures
        r == (w@ == lit@),
{
    *w == String::from_str(lit)
}

/// Parses the words after `!song`, checking moderator status.
pub fn parse_song_command(words: &Vec<String>, is_moderator: bool, current_volume: u32) -> (r:
    Result<SongCommand, SongCommandError>)
    ensures
        command_result_view(r) == song_command_spec(word_views(words@), is_moderator, current_volume),
{
    let ghost ws = word_views(words@);
    let m = is_moderator;
    if words.len() == 0 {
        return Err(SongCommandError::Unknown);
    }
    let n = words.len();
    proof {
        reveal_strlit("request");
        reveal_strlit("theme");
        reveal_strlit("promote");
        reveal_strlit("close");
        reveal_strlit("open");
        reveal_strlit("list");
        reveal_strlit("current");
        reveal_strlit("purge");
        reveal_strlit("when");
        reveal_strlit("delete");
        reveal_strlit("last");
        reveal_strlit("mine");
        reveal_strlit("volume");
        reveal_strlit("skip");
        reveal_strlit("toggle");
        reveal_strlit("play");
        reveal_strlit("pause");
        reveal_strlit("length");
        assert(ws[0] == words@[0]@);
        assert(ws.drop_first() =~= ws.subrange(1, n as int));
        assert(ws.drop_first().len() == n - 1);
        if n > 1 {
            assert(ws.drop_first()[0] == words@[1]@);
        }
        if n > 2 {
            assert(ws.drop_first()[1] == words@[2]@);
        }
    }
    let c = &words[0];
    if is_word(c, "request") {
        if n == 1 {
            return Ok(SongCommand::RequestHelp);
        }
        return Ok(SongCommand::Request(join_from(words, 1)));
    }
    if is_word(c, "theme") {
        if !m {
            return Err(SongCommandError::NotModerator);
        }
        if n == 1 {
            return Err(SongCommandError::NoThemeName);
        }
        return Ok(SongCommand::Theme(words[1].clone()));
    }
    if is_word(c, "promote") || (is_word(c, "delete") && n > 1 && !is_word(&words[1], "last")
        && !is_word(&words[1], "mine")) {
        let promote = is_word(c, "promote");
        if !m {
            return Err(SongCommandError::NotModerator);
        }
        if n == 1 {
            return Err(SongCommandError::NoPosition);
        }
        return match parse_queue_position(words[1].as_str()) {
            Ok(i) => Ok(
                if promote {
                    SongCommand::Promote(i)
                } else {
                    SongCommand::DeleteAt(i)
                },
            ),
            Err(e) => Err(SongCommandError::BadPosition(e)),
        };
    }
    if is_word(c, "close") {
        if !m {
            return Err(SongCommandError::NotModerator);
        }
        if n == 1 {
            return Ok(SongCommand::Close(None));
        }
        return Ok(SongCommand::Close(Some(join_from(words, 1))));
    }
    if is_word(c, "open") {
        return if m {
            Ok(SongCommand::Open)
        } else {
            Err(SongCommandError::NotModerator)
        };
    }
    if is_word(c, "list") {
        if n == 1 {
            return Ok(SongCommand::List(3));
        }
        if !m {
            return Err(SongCommandError::NotModerator);
        }
        let limit: usize = match parse_bytes(words[1].as_str().as_bytes(), usize::MAX as u64) {
            Some(v) => v as usize,
            None => 3,
        };
        return Ok(SongCommand::List(limit));
    }
    if is_word(c, "current") {
        return Ok(SongCommand::Current);
    }
    if is_word(c, "purge") {
        return if m {
            Ok(SongCommand::Purge)
        } else {
            Err(SongCommandError::NotModerator)
        };
    }
    if is_word(c, "when") {
        if n == 1 {
            return Ok(SongCommand::When(None));
        }
        if !m {
            return Err(SongCommandError::NotModerator);
        }
        return Ok(SongCommand::When(Some(lowercase(words[1].as_str()))));
    }
    if is_word(c, "delete") {
        if n == 1 {
            return Err(SongCommandError::NoDeleteTarget);
        }
        if is_word(&words[1], "last") {
            if !m {
                return Err(SongCommandError::NotModerator);
            }
            if n > 2 {
                return Ok(SongCommand::DeleteLastBy(lowercase(words[2].as_str())));
            }
            return Ok(SongCommand::DeleteLast);
        }
        return Ok(SongCommand::DeleteMine);
    }
    if is_word(c, "volume") {
        if n == 1 {
            return Ok(SongCommand::ReadVolume);
        }
        if !m {
            return Err(SongCommandError::NotModerator);
        }
        return match volume_argument(current_volume, words[1].as_str()) {
            Some(v) => Ok(SongCommand::SetVolume(v)),
            None => Err(SongCommandError::BadVolume),
        };
    }
    let simple = if is_word(c, "skip") {
        Some(SongCommand::Skip)
    } else if is_word(c, "toggle") {
        Some(SongCommand::Toggle)
    } else if is_word(c, "play") {
        Some(SongCommand::Play)
    } else if is_word(c, "pause") {
        Some(SongCommand::Pause)
    } else {
        None
    };
    match simple {
        Some(cmd) => {
            if m {
                Ok(cmd)
            } else {
                Err(SongCommandError::NotModerator)
            }
        },
        None => {
            if is_word(c, "length") {
                Ok(SongCommand::Length)
            } else {
                Err(SongCommandError::Unknown)
            }
        },
    }
}

} // verus!
