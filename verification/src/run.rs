//! A whole run, from the invocation to its end.

use crate::album::{album_next, album_start, get_album, AlbumRun, AlbumRunView};
use crate::catalog::{catalog_next, catalog_start, get_all_albums, CatalogRun, CatalogRunView};
use crate::error::ErrorKind;
use crate::selector::{select, selected, Scope};
use crate::song::{get_song, song_next, song_start, SongRun, SongRunView};
use crate::steps::{Action, ActionView, Event, EventView};
use vstd::prelude::*;

verus! {

/// A run in one of the three scopes.
#[derive(Clone, Debug, PartialEq, Eq)]
pub enum Run {
    /// The whole catalog.
    All(CatalogRun),
    /// One album.
    Album(AlbumRun),
    /// One song, whose album is looked up when it is needed.
    Song(SongRun),
}

/// The view of [`Run`].
pub enum RunView {
    All(CatalogRunView),
    Album(AlbumRunView),
    Song(SongRunView),
}

impl View for Run {
    type V = RunView;

    open spec fn view(&self) -> RunView {
        match *self {
            Run::All(run) => RunView::All(run@),
            Run::Album(run) => RunView::Album(run@),
            Run::Song(run) => RunView::Song(run@),
        }
    }
}

impl RunView {
    /// The run has ended.
    pub open spec fn ended(self) -> bool {
        match self {
            RunView::All(run) => run.ended(),
            RunView::Album(run) => run.ended(),
            RunView::Song(run) => run.ended(),
        }
    }

    /// The run is in order, as a run of its scope is. A run is in order at
    /// its start and after every step.
    pub open spec fn orderly(self) -> bool {
        match self {
            RunView::All(run) => run.orderly(),
            RunView::Album(run) => run.orderly(),
            RunView::Song(run) => true,
        }
    }
}

/// The beginning of a run of `scope` that places its files below `root`: the
/// whole catalog, one album below `root`, or one song in `root` itself with
/// its album still to be found.
pub open spec fn run_start(scope: Scope, root: Seq<char>) -> (RunView, ActionView) {
    match scope {
        Scope::All => {
            let (run, action) = catalog_start(root);
            (RunView::All(run), action)
        },
        Scope::Album(id) => {
            let (run, action) = album_start(root, id);
            (RunView::Album(run), action)
        },
        Scope::Song(id) => {
            let (run, action) = song_start(root, id, None);
            (RunView::Song(run), action)
        },
    }
}

/// The run after `event`, and the next action.
pub open spec fn run_next(run: RunView, event: EventView) -> (RunView, ActionView) {
    match run {
        RunView::All(run) => {
            let (run, action) = catalog_next(run, event);
            (RunView::All(run), action)
        },
        RunView::Album(run) => {
            let (run, action) = album_next(run, event);
            (RunView::Album(run), action)
        },
        RunView::Song(run) => {
            let (run, action) = song_next(run, event);
            (RunView::Song(run), action)
        },
    }
}

/// What an invocation leads to: the beginning of the run that its selectors
/// name, or a usage error and nothing to do.
pub open spec fn launched(all: bool, album_id: u64, song_id: u64, root: Seq<char>) -> Result<
    (RunView, ActionView),
    ErrorKind,
> {
    match selected(all, album_id, song_id) {
        Ok(scope) => Ok(run_start(scope, root)),
        Err(kind) => Err(kind),
    }
}

/// The view of what [`launch`] returns.
pub open spec fn launch_view(r: Result<(Run, Action), ErrorKind>) -> Result<
    (RunView, ActionView),
    ErrorKind,
> {
    match r {
        Ok((run, action)) => Ok((run@, action@)),
        Err(kind) => Err(kind),
    }
}

/// Begins a run of `scope` below `root`.
pub fn start(scope: Scope, root: String) -> (r: (Run, Action))
    ensures
        (r.0@, r.1@) == run_start(scope, root@),
        r.0@.orderly(),
{
    match scope {
        Scope::All => {
            let (run, action) = get_all_albums(root);
            (Run::All(run), action)
        },
        Scope::Album(id) => {
            let (run, action) = get_album(root, id);
            (Run::Album(run), action)
        },
        Scope::Song(id) => {
            let (run, action) = get_song(root, id, None);
            (Run::Song(run), action)
        },
    }
}

/// Maps an invocation to its run: the selectors decide the scope, and the
/// run begins below `path`. Where the selectors name no scope, or two, the
/// result is a usage error, and no action was handed out.
pub fn launch(all: bool, album_id: u64, song_id: u64, path: String) -> (r: Result<
    (Run, Action),
    ErrorKind,
>)
    ensures
        launch_view(r) == launched(all, album_id, song_id, path@),
        !all && album_id == 0 && song_id == 0 ==> r is Err,
        r matches Ok(begun) ==> begun.0@.orderly(),
{
    match select(all, album_id, song_id) {
        Ok(scope) => Ok(start(scope, path)),
        Err(kind) => Err(kind),
    }
}

impl Run {
    /// Takes the driver's answer to the last action and says what to do next.
    pub fn step(self, event: Event) -> (r: (Run, Action))
        ensures
            (r.0@, r.1@) == run_next(self@, event@),
            self@.orderly() ==> r.0@.orderly(),
    {
        match self {
            Run::All(run) => {
                let (run, action) = run.step(event);
                (Run::All(run), action)
            },
            Run::Album(run) => {
                let (run, action) = run.step(event);
                (Run::Album(run), action)
            },
            Run::Song(run) => {
                let (run, action) = run.step(event);
                (Run::Song(run), action)
            },
        }
    }
}

} // verus!
