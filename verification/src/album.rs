//! Resolving one album.
//!
//! The album's record is fetched, its directory made sure of, its cover
//! brought in unless it is there, and then its songs are resolved one after
//! the other, in album order. Each song is handed the album, so none asks for
//! it again.

use crate::endpoints::{album_url_of, album_url};
use crate::album_laws::lemma_album_step;
use crate::error::ErrorKind;
use crate::layout::{album_dir, album_dir_of, cover_path, cover_path_of};
use crate::records::{AlbumData, AlbumDataView};
use crate::song::{get_song, song_next, song_start, SongRun, SongRunView};
use crate::steps::{download_file, fetch_of, Action, ActionView, Event, EventView};
use crate::text::{id_of, parse_id};
use vstd::prelude::*;

verus! {

/// How far the work on an album has come.
#[derive(Clone, Debug, PartialEq, Eq)]
pub enum AlbumStage {
    /// The album's record was asked for.
    FetchingAlbum,
    /// The album's directory is being made.
    CreatingDir { album: AlbumData },
    /// The cover was probed.
    ProbingCover { album: AlbumData },
    /// The cover is being downloaded.
    DownloadingCover { album: AlbumData },
    /// The song at `index` is being resolved; those before it are done.
    InSong { album: AlbumData, index: usize, song: SongRun },
    /// Every song is done.
    Done,
    /// The run was given up.
    Failed { kind: ErrorKind },
}

/// The view of [`AlbumStage`].
pub enum AlbumStageView {
    FetchingAlbum,
    CreatingDir { album: AlbumDataView },
    ProbingCover { album: AlbumDataView },
    DownloadingCover { album: AlbumDataView },
    InSong { album: AlbumDataView, index: nat, song: SongRunView },
    Done,
    Failed { kind: ErrorKind },
}

impl View for AlbumStage {
    type V = AlbumStageView;

    open spec fn view(&self) -> AlbumStageView {
        match *self {
            AlbumStage::FetchingAlbum => AlbumStageView::FetchingAlbum,
            AlbumStage::CreatingDir { album } => AlbumStageView::CreatingDir { album: album@ },
            AlbumStage::ProbingCover { album } => AlbumStageView::ProbingCover { album: album@ },
            AlbumStage::DownloadingCover { album } => AlbumStageView::DownloadingCover {
                album: album@,
            },
            AlbumStage::InSong { album, index, song } => AlbumStageView::InSong {
                album: album@,
                index: index as nat,
                song: song@,
            },
            AlbumStage::Done => AlbumStageView::Done,
            AlbumStage::Failed { kind } => AlbumStageView::Failed { kind },
        }
    }
}

/// The work on one album: the directory below which its own directory goes,
/// and the stage reached.
#[derive(Clone, Debug, PartialEq, Eq)]
pub struct AlbumRun {
    pub parent: String,
    pub stage: AlbumStage,
}

/// The view of [`AlbumRun`].
pub struct AlbumRunView {
    pub parent: Seq<char>,
    pub stage: AlbumStageView,
}

impl View for AlbumRun {
    type V = AlbumRunView;

    open spec fn view(&self) -> AlbumRunView {
        AlbumRunView { parent: self.parent@, stage: self.stage@ }
    }
}

impl AlbumRunView {
    /// The run has ended.
    pub open spec fn ended(self) -> bool {
        self.stage is Done || self.stage is Failed
    }

    /// The run is in order: the song at work, if there is one, was handed
    /// the album and has not itself ended. A run is in order at its start
    /// and after every step.
    pub open spec fn orderly(self) -> bool {
        self.stage matches AlbumStageView::InSong { album, index, song } ==> song.keeps_to_song()
            && !song.ended()
    }
}

/// The stage and the action of an album run that is given up.
pub open spec fn album_halted(kind: ErrorKind) -> (AlbumStageView, ActionView) {
    (AlbumStageView::Failed { kind }, ActionView::Abort { kind })
}

/// The album run as it turns to the song at `index`: done where the album has
/// no such song, else the beginning of that song in the album's directory,
/// with the album handed in.
pub open spec fn song_at(parent: Seq<char>, album: AlbumDataView, index: nat) -> (
    AlbumStageView,
    ActionView,
) {
    if index >= album.songs.len() {
        (AlbumStageView::Done, ActionView::Finished)
    } else {
        match id_of(album.songs[index as int].cid) {
            Some(id) => {
                let (song, action) = song_start(
                    album_dir_of(parent, album.name),
                    id,
                    Some(album.context()),
                );
                (AlbumStageView::InSong { album, index, song }, action)
            },
            None => album_halted(ErrorKind::Decode),
        }
    }
}

/// The stage after `event`, and the next action, of an album run below
/// `parent`. While a song is being resolved, the song's run decides; when it
/// is finished the next song begins, and when it is given up so is the album.
pub open spec fn album_advanced(parent: Seq<char>, stage: AlbumStageView, event: EventView) -> (
    AlbumStageView,
    ActionView,
) {
    match stage {
        AlbumStageView::FetchingAlbum => match event {
            EventView::Album(detail) => (
                AlbumStageView::CreatingDir { album: detail.data },
                ActionView::CreateDir { path: album_dir_of(parent, detail.data.name) },
            ),
            _ => album_halted(event.refusal()),
        },
        AlbumStageView::CreatingDir { album } => match event {
            EventView::Done => (
                AlbumStageView::ProbingCover { album },
                ActionView::Probe { path: cover_path_of(album_dir_of(parent, album.name)) },
            ),
            _ => album_halted(event.refusal()),
        },
        AlbumStageView::ProbingCover { album } => match event {
            EventView::Exists(found) => match fetch_of(
                album.cover_url,
                cover_path_of(album_dir_of(parent, album.name)),
                found,
            ) {
                Some(download) => (AlbumStageView::DownloadingCover { album }, download),
                None => song_at(parent, album, 0),
            },
            _ => album_halted(event.refusal()),
        },
        AlbumStageView::DownloadingCover { album } => match event {
            EventView::Done => song_at(parent, album, 0),
            _ => album_halted(event.refusal()),
        },
        AlbumStageView::InSong { album, index, song } => {
            let (song, action) = song_next(song, event);
            match action {
                ActionView::SongFinished { .. } => song_at(parent, album, index + 1),
                ActionView::Abort { kind } => album_halted(kind),
                _ => (AlbumStageView::InSong { album, index, song }, action),
            }
        },
        AlbumStageView::Done => (stage, ActionView::Finished),
        AlbumStageView::Failed { kind } => (stage, ActionView::Abort { kind }),
    }
}

/// The beginning of the work on the album `id`, to be placed below `parent`.
pub open spec fn album_start(parent: Seq<char>, id: u64) -> (AlbumRunView, ActionView) {
    (
        AlbumRunView { parent, stage: AlbumStageView::FetchingAlbum },
        ActionView::FetchAlbum { url: album_url_of(id) },
    )
}

/// The run after `event`, and the next action.
pub open spec fn album_next(s: AlbumRunView, event: EventView) -> (AlbumRunView, ActionView) {
    let (stage, action) = album_advanced(s.parent, s.stage, event);
    (AlbumRunView { stage, ..s }, action)
}

fn halt(kind: ErrorKind) -> (r: (AlbumStage, Action))
    ensures
        (r.0@, r.1@) == album_halted(kind),
{
    (AlbumStage::Failed { kind }, Action::Abort { kind })
}

fn begin_song(parent: &str, album: AlbumData, index: usize) -> (r: (AlbumStage, Action))
    ensures
        (r.0@, r.1@) == song_at(parent@, album@, index as nat),
{
    if index >= album.songs.len() {
        (AlbumStage::Done, Action::Finished)
    } else {
        match parse_id(album.songs[index].cid.as_str()) {
            Some(id) => {
                let dir = album_dir(parent, album.name.as_str());
                let (song, action) = get_song(dir, id, Some(album.context()));
                (AlbumStage::InSong { album, index, song }, action)
            },
            None => halt(ErrorKind::Decode),
        }
    }
}

fn advance(parent: &str, stage: AlbumStage, event: Event) -> (r: (AlbumStage, Action))
    ensures
        (r.0@, r.1@) == album_advanced(parent@, stage@, event@),
{
    match stage {
        AlbumStage::FetchingAlbum => match event {
            Event::Album(detail) => {
                let path = album_dir(parent, detail.data.name.as_str());
                (AlbumStage::CreatingDir { album: detail.data }, Action::CreateDir { path })
            },
            other => halt(other.refusal()),
        },
        AlbumStage::CreatingDir { album } => match event {
            Event::Done => {
                let dir = album_dir(parent, album.name.as_str());
                let path = cover_path(dir.as_str());
                (AlbumStage::ProbingCover { album }, Action::Probe { path })
            },
            other => halt(other.refusal()),
        },
        AlbumStage::ProbingCover { album } => match event {
            Event::Exists(found) => {
                let dir = album_dir(parent, album.name.as_str());
                let path = cover_path(dir.as_str());
                match download_file(album.cover_url.as_str(), path.as_str(), found) {
                    Some(download) => (AlbumStage::DownloadingCover { album }, download),
                    None => begin_song(parent, album, 0),
                }
            },
            other => halt(other.refusal()),
        },
        AlbumStage::DownloadingCover { album } => match event {
            Event::Done => begin_song(parent, album, 0),
            other => halt(other.refusal()),
        },
        AlbumStage::InSong { album, index, song } => {
            let (song, action) = song.step(event);
            match action {
                Action::SongFinished { .. } => {
                    // An index that cannot grow is past the last song.
                    match index.checked_add(1) {
                        Some(next) => begin_song(parent, album, next),
                        None => (AlbumStage::Done, Action::Finished),
                    }
                },
                Action::Abort { kind } => halt(kind),
                other => (AlbumStage::InSong { album, index, song }, other),
            }
        },
        AlbumStage::Done => (AlbumStage::Done, Action::Finished),
        AlbumStage::Failed { kind } => (AlbumStage::Failed { kind }, Action::Abort { kind }),
    }
}

/// Begins the work on the album `album_id`, to be placed below `parent_path`.
pub fn get_album(parent_path: String, album_id: u64) -> (r: (AlbumRun, Action))
    ensures
        (r.0@, r.1@) == album_start(parent_path@, album_id),
        r.0@.orderly(),
{
    (
        AlbumRun { parent: parent_path, stage: AlbumStage::FetchingAlbum },
        Action::FetchAlbum { url: album_url(album_id) },
    )
}

impl AlbumRun {
    /// Takes the driver's answer to the last action and says what to do next.
    pub fn step(self, event: Event) -> (r: (AlbumRun, Action))
        ensures
            (r.0@, r.1@) == album_next(self@, event@),
            self@.orderly() ==> r.0@.orderly(),
    {
        proof {
            if self@.orderly() {
                lemma_album_step(self@, event@);
            }
        }
        let AlbumRun { parent, stage } = self;
        let (stage, action) = advance(parent.as_str(), stage, event);
        (AlbumRun { parent, stage }, action)
    }
}

} // verus!
