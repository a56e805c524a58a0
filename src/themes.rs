use vstd::prelude::*;

use crate::track::TrackId;

verus! {

/// A named track played on command, from a configured offset.
#[derive(Debug)]
pub struct Theme {
    pub name: String,
    pub track_id: TrackId,
    /// Where playback starts, in milliseconds.
    pub offset_ms: u64,
    /// Where playback should end, in milliseconds, if anywhere.
    pub end_ms: Option<u64>,
}

/// Error raised when failing to play a theme song.
#[derive(Debug, Clone, Copy, PartialEq, Eq, Structural)]
pub enum PlayThemeError {
    /// No such theme song.
    NoSuchTheme,
    /// Resolving the theme's track failed.
    Error,
}

/// Whether `i` is the first position of a theme named `name`.
pub open spec fn first_named(themes: Seq<Theme>, name: Seq<char>, i: int) -> bool {
    0 <= i < themes.len() && themes[i].name@ == name && forall|k: int|
        0 <= k < i ==> #[trigger] themes[k].name@ != name
}

/// The first theme called `name`.
pub fn lookup_theme<'a>(themes: &'a Vec<Theme>, name: &str) -> (r: Result<&'a Theme, PlayThemeError>)
    ensures
        r matches Ok(t) ==> exists|i: int| first_named(themes@, name@, i) && *t == themes@[i],
        r is Err ==> r == Err::<&Theme, PlayThemeError>(PlayThemeError::NoSuchTheme) && forall|
            k: int,
        |
            0 <= k < themes@.len() ==> #[trigger] themes@[k].name@ != name@,
{
    let wanted = <String as vstd::string::StringExecFns>::from_str(name);
    let mut i: usize = 0;
    while i < themes.len()
        invariant
            i <= themes@.len(),
            wanted@ == name@,
            forall|k: int| 0 <= k < i ==> #[trigger] themes@[k].name@ != name@,
        decreases themes@.len() - i,
    {
        if themes[i].name == wanted {
            assert(first_named(themes@, name@, i as int));
            return Ok(&themes[i]);
        }
        i = i + 1;
    }
    Err(PlayThemeError::NoSuchTheme)
}

} // verus!
