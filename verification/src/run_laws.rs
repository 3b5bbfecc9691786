//! What holds of every run, in whatever scope, whatever the driver reports.

use crate::album::AlbumStageView;
use crate::album_laws::lemma_album_step;
use crate::catalog::CatalogStageView;
use crate::catalog_laws::lemma_catalog_step;
use crate::error::ErrorKind;
use crate::run::{run_next, run_start, RunView};
use crate::selector::Scope;
use crate::song::SongRunView;
use crate::steps::{ActionView, EventView};
use vstd::prelude::*;

verus! {

impl RunView {
    /// The song that the run is working on, if it is working on one.
    pub open spec fn song(self) -> Option<SongRunView> {
        match self {
            RunView::Song(song) => Some(song),
            RunView::Album(album) => match album.stage {
                AlbumStageView::InSong { album, index, song } => Some(song),
                _ => None,
            },
            RunView::All(catalog) => match catalog.stage {
                CatalogStageView::InAlbum { albums, index, album } => match album.stage {
                    AlbumStageView::InSong { album, index, song } => Some(song),
                    _ => None,
                },
                _ => None,
            },
        }
    }

    /// The run waits for the transcoder, or for what the transcoder left to
    /// be discarded.
    pub open spec fn at_transcoder(self) -> bool {
        self.song() matches Some(song) && (song.stage is Transcoding || song.stage is Discarding)
    }

}

/// Every run is in order at its start.
pub proof fn law_run_starts_in_order(scope: Scope, root: Seq<char>)
    ensures
        run_start(scope, root).0.orderly(),
        !run_start(scope, root).0.ended(),
{
}

/// A run in order stays in order.
pub proof fn law_run_stays_in_order(run: RunView, event: EventView)
    requires
        run.orderly(),
    ensures
        run_next(run, event).0.orderly(),
{
    match run {
        RunView::Song(song) => {},
        RunView::Album(album) => {
            lemma_album_step(album, event);
        },
        RunView::All(catalog) => {
            lemma_catalog_step(catalog, event);
        },
    }
}

/// A run that has ended stays as it is, and answers every event with the
/// word that ended it.
pub proof fn law_end_is_final(run: RunView, event: EventView)
    requires
        run.ended(),
    ensures
        run_next(run, event).0 == run,
        run_next(run, event).1.is_final(),
        !run_next(run, event).1.is_network(),
{
}

/// The first failure ends the whole run.
///
/// Whatever a run is doing, in the catalog, in an album or in a song, a
/// failure that the driver reports ends it at once, with the kind reported:
/// nothing is tried again and nothing else is begun. The one detour is the
/// transcoder, whose unfinished output is discarded before the run ends.
pub proof fn law_failure_ends_the_run(run: RunView, kind: ErrorKind)
    requires
        run.orderly(),
        !run.ended(),
        !run.at_transcoder(),
    ensures
        run_next(run, EventView::Failed(kind)).0.ended(),
        run_next(run, EventView::Failed(kind)).1 == (ActionView::Abort { kind }),
{
}

} // verus!
