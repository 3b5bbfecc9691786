//! What a run asks of its driver, and what the driver reports back.
//!
//! A run never touches the network, the disk or the transcoder. It hands out
//! one [`Action`] at a time; the driver performs it and answers with one
//! [`Event`].

use crate::error::ErrorKind;
use crate::records::{
    AlbumDetail, AlbumDetailView, CatalogRoot, CatalogRootView, SongDetail, SongDetailView,
};
use crate::transcoder::{TranscodeJob, TranscodeJobView};
use vstd::prelude::*;

verus! {

/// One thing for the driver to do.
#[derive(Clone, Debug, PartialEq, Eq)]
pub enum Action {
    /// Get the list of all albums from `url`; answer with [`Event::Catalog`].
    FetchCatalog { url: String },
    /// Get one album from `url`; answer with [`Event::Album`].
    FetchAlbum { url: String },
    /// Get one song from `url`; answer with [`Event::Song`].
    FetchSong { url: String },
    /// Make sure the directory `path` exists; answer with [`Event::Done`].
    CreateDir { path: String },
    /// Say whether `path` exists; answer with [`Event::Exists`].
    Probe { path: String },
    /// Get `url` and write its body to `path`; answer with [`Event::Done`].
    Download { url: String, path: String },
    /// Run the transcoder on `job` and wait for it; answer with
    /// [`Event::Done`] where it succeeded, and with a failure where it did
    /// not, or could not be started, or no command can be built for the job.
    Transcode { job: TranscodeJob },
    /// Remove the file `path`; answer with [`Event::Done`].
    Remove { path: String },
    /// Make sure that no file is at `path`, which may or may not be there;
    /// answer with [`Event::Done`].
    Discard { path: String },
    /// The song is there, at `path`. `skipped` says that it was there before
    /// and nothing was fetched or written for it.
    SongFinished { path: String, skipped: bool },
    /// The run is complete.
    Finished,
    /// The run was given up.
    Abort { kind: ErrorKind },
}

/// The view of [`Action`].
pub enum ActionView {
    FetchCatalog { url: Seq<char> },
    FetchAlbum { url: Seq<char> },
    FetchSong { url: Seq<char> },
    CreateDir { path: Seq<char> },
    Probe { path: Seq<char> },
    Download { url: Seq<char>, path: Seq<char> },
    Transcode { job: TranscodeJobView },
    Remove { path: Seq<char> },
    Discard { path: Seq<char> },
    SongFinished { path: Seq<char>, skipped: bool },
    Finished,
    Abort { kind: ErrorKind },
}

impl View for Action {
    type V = ActionView;

    open spec fn view(&self) -> ActionView {
        match *self {
            Action::FetchCatalog { url } => ActionView::FetchCatalog { url: url@ },
            Action::FetchAlbum { url } => ActionView::FetchAlbum { url: url@ },
            Action::FetchSong { url } => ActionView::FetchSong { url: url@ },
            Action::CreateDir { path } => ActionView::CreateDir { path: path@ },
            Action::Probe { path } => ActionView::Probe { path: path@ },
            Action::Download { url, path } => ActionView::Download { url: url@, path: path@ },
            Action::Transcode { job } => ActionView::Transcode { job: job@ },
            Action::Remove { path } => ActionView::Remove { path: path@ },
            Action::Discard { path } => ActionView::Discard { path: path@ },
            Action::SongFinished { path, skipped } => ActionView::SongFinished {
                path: path@,
                skipped,
            },
            Action::Finished => ActionView::Finished,
            Action::Abort { kind } => ActionView::Abort { kind },
        }
    }
}

impl ActionView {
    /// The action uses the network.
    pub open spec fn is_network(self) -> bool {
        self is FetchCatalog || self is FetchAlbum || self is FetchSong || self is Download
    }

    /// The action ends the run.
    pub open spec fn is_final(self) -> bool {
        self is SongFinished || self is Finished || self is Abort
    }
}

/// What the driver reports of the action it was handed.
#[derive(Clone, Debug, PartialEq, Eq)]
pub enum Event {
    /// The list of all albums arrived.
    Catalog(CatalogRoot),
    /// An album arrived.
    Album(AlbumDetail),
    /// A song arrived.
    Song(SongDetail),
    /// The probed path exists, or does not.
    Exists(bool),
    /// The action was carried out.
    Done,
    /// The action failed.
    Failed(ErrorKind),
}

/// The view of [`Event`].
pub enum EventView {
    Catalog(CatalogRootView),
    Album(AlbumDetailView),
    Song(SongDetailView),
    Exists(bool),
    Done,
    Failed(ErrorKind),
}

impl View for Event {
    type V = EventView;

    open spec fn view(&self) -> EventView {
        match *self {
            Event::Catalog(root) => EventView::Catalog(root@),
            Event::Album(detail) => EventView::Album(detail@),
            Event::Song(detail) => EventView::Song(detail@),
            Event::Exists(found) => EventView::Exists(found),
            Event::Done => EventView::Done,
            Event::Failed(kind) => EventView::Failed(kind),
        }
    }
}

impl EventView {
    /// The kind of error with which a run ends that did not expect this
    /// event: the reported kind for a failure, and a decode error for a reply
    /// that is not of the shape that the pending action asks for.
    pub open spec fn refusal(self) -> ErrorKind {
        match self {
            EventView::Failed(kind) => kind,
            _ => ErrorKind::Decode,
        }
    }
}

impl Event {
    /// The kind of error with which a run ends that did not expect this event.
    pub fn refusal(&self) -> (kind: ErrorKind)
        ensures
            kind == self@.refusal(),
    {
        match self {
            Event::Failed(kind) => *kind,
            _ => ErrorKind::Decode,
        }
    }
}

/// The file fetcher's decision: nothing to do where the local file exists,
/// else one download of `remote` to `local`.
pub open spec fn fetch_of(remote: Seq<char>, local: Seq<char>, exists: bool) -> Option<
    ActionView,
> {
    if exists {
        None
    } else {
        Some(ActionView::Download { url: remote, path: local })
    }
}

/// The view of an optional action.
pub open spec fn optional_action(a: Option<Action>) -> Option<ActionView> {
    match a {
        Some(action) => Some(action@),
        None => None,
    }
}

/// Decides how to bring `remote_path` to `local_path`, given whether the
/// local file exists: a file that is there is never fetched again.
pub fn download_file(remote_path: &str, local_path: &str, exists: bool) -> (action: Option<Action>)
    ensures
        optional_action(action) == fetch_of(remote_path@, local_path@, exists),
{
    if exists {
        None
    } else {
        Some(
            Action::Download {
                url: String::from_str(remote_path),
                path: String::from_str(local_path),
            },
        )
    }
}

} // verus!
