//! The entry dispatcher: which of the three run modes an invocation selects.

use crate::error::ErrorKind;
use vstd::prelude::*;

verus! {

/// What a run resolves.
#[derive(Clone, Copy, Debug, PartialEq, Eq, Structural)]
pub enum Scope {
    /// Every album of the catalog.
    All,
    /// The album with this identifier.
    Album(u64),
    /// The song with this identifier.
    Song(u64),
}

/// The scope that the three selectors name. An identifier of zero stands for
/// "not given". `all` wins over both identifiers, whatever they are. Without
/// `all`, exactly one identifier must be given.
pub open spec fn selected(all: bool, album_id: u64, song_id: u64) -> Result<Scope, ErrorKind> {
    if all {
        Ok(Scope::All)
    } else if album_id > 0 && song_id == 0 {
        Ok(Scope::Album(album_id))
    } else if album_id == 0 && song_id > 0 {
        Ok(Scope::Song(song_id))
    } else {
        Err(ErrorKind::Usage)
    }
}

/// Maps the selectors of an invocation to the scope of the run, or to a usage
/// error where they name none or two at once.
pub fn select(all: bool, album_id: u64, song_id: u64) -> (scope: Result<Scope, ErrorKind>)
    ensures
        scope == selected(all, album_id, song_id),
        all ==> scope == Ok::<Scope, ErrorKind>(Scope::All),
        !all && album_id == 0 && song_id == 0 ==> scope == Err::<Scope, ErrorKind>(
            ErrorKind::Usage,
        ),
{
    if all {
        Ok(Scope::All)
    } else if album_id > 0 && song_id == 0 {
        Ok(Scope::Album(album_id))
    } else if album_id == 0 && song_id > 0 {
        Ok(Scope::Song(song_id))
    } else {
        Err(ErrorKind::Usage)
    }
}

} // verus!
