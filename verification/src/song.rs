//! Resolving one song.
//!
//! The song's record is fetched first, since it names the file. If the
//! finished file is already there, the run ends at once. Otherwise the raw
//! audio is brought in, the album is looked up unless the caller handed it
//! in, the transcoder writes the finished file, and the raw audio is removed.

use crate::endpoints::{album_url, album_url_of, song_url, song_url_of};
use crate::error::ErrorKind;
use crate::layout::{cover_path, cover_path_of, final_path, final_path_of, raw_path, raw_path_of};
use crate::records::{AlbumContext, AlbumContextView, SongData, SongDataView};
use crate::steps::{download_file, fetch_of, Action, ActionView, Event, EventView};
use crate::text::{id_of, parse_id};
use crate::transcoder::{job_of, metadata_tags, TranscodeJob};
use vstd::prelude::*;

verus! {

/// How far the work on a song has come. Each stage but the last two waits for
/// the answer to the action that led into it.
#[derive(Clone, Debug, PartialEq, Eq)]
pub enum SongStage {
    /// The song's record was asked for.
    FetchingSong,
    /// The finished file was probed.
    ProbingFinal { song: SongData },
    /// The raw audio was probed.
    ProbingRaw { song: SongData },
    /// The raw audio is being downloaded.
    DownloadingRaw { song: SongData },
    /// The song's album was asked for.
    FetchingAlbum { song: SongData },
    /// The album's cover was probed.
    ProbingCover { song: SongData, album: AlbumContext, cover_url: String },
    /// The album's cover is being downloaded.
    DownloadingCover { song: SongData, album: AlbumContext },
    /// The transcoder is at work.
    Transcoding { song: SongData },
    /// The raw audio is being removed.
    Removing { song: SongData },
    /// The transcoder failed, and what it may have written is being removed.
    Discarding { kind: ErrorKind },
    /// The finished file is there.
    Done { song: SongData, skipped: bool },
    /// The run was given up.
    Failed { kind: ErrorKind },
}

/// The view of [`SongStage`].
pub enum SongStageView {
    FetchingSong,
    ProbingFinal { song: SongDataView },
    ProbingRaw { song: SongDataView },
    DownloadingRaw { song: SongDataView },
    FetchingAlbum { song: SongDataView },
    ProbingCover { song: SongDataView, album: AlbumContextView, cover_url: Seq<char> },
    DownloadingCover { song: SongDataView, album: AlbumContextView },
    Transcoding { song: SongDataView },
    Removing { song: SongDataView },
    Discarding { kind: ErrorKind },
    Done { song: SongDataView, skipped: bool },
    Failed { kind: ErrorKind },
}

impl View for SongStage {
    type V = SongStageView;

    open spec fn view(&self) -> SongStageView {
        match *self {
            SongStage::FetchingSong => SongStageView::FetchingSong,
            SongStage::ProbingFinal { song } => SongStageView::ProbingFinal { song: song@ },
            SongStage::ProbingRaw { song } => SongStageView::ProbingRaw { song: song@ },
            SongStage::DownloadingRaw { song } => SongStageView::DownloadingRaw { song: song@ },
            SongStage::FetchingAlbum { song } => SongStageView::FetchingAlbum { song: song@ },
            SongStage::ProbingCover { song, album, cover_url } => SongStageView::ProbingCover {
                song: song@,
                album: album@,
                cover_url: cover_url@,
            },
            SongStage::DownloadingCover { song, album } => SongStageView::DownloadingCover {
                song: song@,
                album: album@,
            },
            SongStage::Transcoding { song } => SongStageView::Transcoding { song: song@ },
            SongStage::Removing { song } => SongStageView::Removing { song: song@ },
            SongStage::Discarding { kind } => SongStageView::Discarding { kind },
            SongStage::Done { song, skipped } => SongStageView::Done { song: song@, skipped },
            SongStage::Failed { kind } => SongStageView::Failed { kind },
        }
    }
}

/// The work on one song: the directory it goes to, the album if the caller
/// knows it, and the stage reached.
#[derive(Clone, Debug, PartialEq, Eq)]
pub struct SongRun {
    pub dir: String,
    pub album: Option<AlbumContext>,
    pub stage: SongStage,
}

/// The view of [`SongRun`].
pub struct SongRunView {
    pub dir: Seq<char>,
    pub album: Option<AlbumContextView>,
    pub stage: SongStageView,
}

/// The view of an album that may be missing.
pub open spec fn optional_context(album: Option<AlbumContext>) -> Option<AlbumContextView> {
    match album {
        Some(context) => Some(context@),
        None => None,
    }
}

impl View for SongRun {
    type V = SongRunView;

    open spec fn view(&self) -> SongRunView {
        SongRunView { dir: self.dir@, album: optional_context(self.album), stage: self.stage@ }
    }
}

/// The stage and the action of a run that is given up.
pub open spec fn halted(kind: ErrorKind) -> (SongStageView, ActionView) {
    (SongStageView::Failed { kind }, ActionView::Abort { kind })
}

/// The transcoder at work on `song` in `dir`, tagged for `album`: it reads
/// the raw audio and the cover of the directory and writes the finished file.
pub open spec fn transcoding(dir: Seq<char>, album: AlbumContextView, song: SongDataView) -> (
    SongStageView,
    ActionView,
) {
    (
        SongStageView::Transcoding { song },
        ActionView::Transcode {
            job: job_of(
                raw_path_of(dir, song.name),
                cover_path_of(dir),
                final_path_of(dir, song.name),
                album,
                song,
            ),
        },
    )
}

/// What follows once the raw audio is there: the transcoder where the caller
/// handed the album in, else the request for the album that the song names.
pub open spec fn with_raw(dir: Seq<char>, given: Option<AlbumContextView>, song: SongDataView) -> (
    SongStageView,
    ActionView,
) {
    match given {
        Some(album) => transcoding(dir, album, song),
        None => match id_of(song.album_cid) {
            Some(id) => (
                SongStageView::FetchingAlbum { song },
                ActionView::FetchAlbum { url: album_url_of(id) },
            ),
            None => halted(ErrorKind::Decode),
        },
    }
}

/// The stage after `event`, and the next action, of a run that places its
/// song in `dir` and was handed the album `given`.
///
/// A run that has ended stays as it is and repeats its last word. A reported
/// failure ends the run with the reported kind, and so does, with a decode
/// error, an event that does not answer the pending action. The one detour:
/// when the transcoder fails, whatever it left of the finished file is
/// discarded first, and the run then ends with the kind of that failure,
/// however the discarding went.
pub open spec fn advanced(
    dir: Seq<char>,
    given: Option<AlbumContextView>,
    stage: SongStageView,
    event: EventView,
) -> (SongStageView, ActionView) {
    match stage {
        SongStageView::FetchingSong => match event {
            EventView::Song(detail) => (
                SongStageView::ProbingFinal { song: detail.data },
                ActionView::Probe { path: final_path_of(dir, detail.data.name) },
            ),
            _ => halted(event.refusal()),
        },
        SongStageView::ProbingFinal { song } => match event {
            EventView::Exists(true) => (
                SongStageView::Done { song, skipped: true },
                ActionView::SongFinished { path: final_path_of(dir, song.name), skipped: true },
            ),
            EventView::Exists(false) => (
                SongStageView::ProbingRaw { song },
                ActionView::Probe { path: raw_path_of(dir, song.name) },
            ),
            _ => halted(event.refusal()),
        },
        SongStageView::ProbingRaw { song } => match event {
            EventView::Exists(found) => match fetch_of(
                song.source_url,
                raw_path_of(dir, song.name),
                found,
            ) {
                Some(download) => (SongStageView::DownloadingRaw { song }, download),
                None => with_raw(dir, given, song),
            },
            _ => halted(event.refusal()),
        },
        SongStageView::DownloadingRaw { song } => match event {
            EventView::Done => with_raw(dir, given, song),
            _ => halted(event.refusal()),
        },
        SongStageView::FetchingAlbum { song } => match event {
            EventView::Album(detail) => (
                SongStageView::ProbingCover {
                    song,
                    album: detail.data.context(),
                    cover_url: detail.data.cover_url,
                },
                ActionView::Probe { path: cover_path_of(dir) },
            ),
            _ => halted(event.refusal()),
        },
        SongStageView::ProbingCover { song, album, cover_url } => match event {
            EventView::Exists(found) => match fetch_of(cover_url, cover_path_of(dir), found) {
                Some(download) => (SongStageView::DownloadingCover { song, album }, download),
                None => transcoding(dir, album, song),
            },
            _ => halted(event.refusal()),
        },
        SongStageView::DownloadingCover { song, album } => match event {
            EventView::Done => transcoding(dir, album, song),
            _ => halted(event.refusal()),
        },
        SongStageView::Transcoding { song } => match event {
            EventView::Done => (
                SongStageView::Removing { song },
                ActionView::Remove { path: raw_path_of(dir, song.name) },
            ),
            _ => (
                SongStageView::Discarding { kind: event.refusal() },
                ActionView::Discard { path: final_path_of(dir, song.name) },
            ),
        },
        SongStageView::Removing { song } => match event {
            EventView::Done => (
                SongStageView::Done { song, skipped: false },
                ActionView::SongFinished { path: final_path_of(dir, song.name), skipped: false },
            ),
            _ => halted(event.refusal()),
        },
        SongStageView::Discarding { kind } => halted(kind),
        SongStageView::Done { song, skipped } => (
            stage,
            ActionView::SongFinished { path: final_path_of(dir, song.name), skipped },
        ),
        SongStageView::Failed { kind } => (stage, ActionView::Abort { kind }),
    }
}

impl SongRunView {
    /// The run has ended.
    pub open spec fn ended(self) -> bool {
        self.stage is Done || self.stage is Failed
    }

    /// The song that the run is working on, once its record has arrived and
    /// as long as the stage holds it.
    pub open spec fn song_of_stage(self) -> Option<SongDataView> {
        match self.stage {
            SongStageView::ProbingFinal { song } => Some(song),
            SongStageView::ProbingRaw { song } => Some(song),
            SongStageView::DownloadingRaw { song } => Some(song),
            SongStageView::FetchingAlbum { song } => Some(song),
            SongStageView::ProbingCover { song, album, cover_url } => Some(song),
            SongStageView::DownloadingCover { song, album } => Some(song),
            SongStageView::Transcoding { song } => Some(song),
            SongStageView::Removing { song } => Some(song),
            SongStageView::Done { song, skipped } => Some(song),
            _ => None,
        }
    }

    /// The run was handed its album and is at a stage that such a run
    /// reaches: it never has to ask for the album or for the cover.
    pub open spec fn keeps_to_song(self) -> bool {
        &&& self.album is Some
        &&& !(self.stage is FetchingAlbum)
        &&& !(self.stage is ProbingCover)
        &&& !(self.stage is DownloadingCover)
    }
}

/// The beginning of the work on the song `id`, to be placed in `dir`.
pub open spec fn song_start(dir: Seq<char>, id: u64, album: Option<AlbumContextView>) -> (
    SongRunView,
    ActionView,
) {
    (
        SongRunView { dir, album, stage: SongStageView::FetchingSong },
        ActionView::FetchSong { url: song_url_of(id) },
    )
}

/// The run after `event`, and the next action. The directory and the album
/// handed in stay as they are; the stage moves as [`advanced`] says.
pub open spec fn song_next(s: SongRunView, event: EventView) -> (SongRunView, ActionView) {
    let (stage, action) = advanced(s.dir, s.album, s.stage, event);
    (SongRunView { stage, ..s }, action)
}

fn transcode(dir: &str, album: &AlbumContext, song: SongData) -> (r: (SongStage, Action))
    ensures
        (r.0@, r.1@) == transcoding(dir@, album@, song@),
{
    let job = TranscodeJob {
        input: raw_path(dir, song.name.as_str()),
        cover: cover_path(dir),
        output: final_path(dir, song.name.as_str()),
        tags: metadata_tags(album, &song),
    };
    (SongStage::Transcoding { song }, Action::Transcode { job })
}

fn proceed_with_raw(dir: &str, given: &Option<AlbumContext>, song: SongData) -> (r: (
    SongStage,
    Action,
))
    ensures
        (r.0@, r.1@) == with_raw(dir@, optional_context(*given), song@),
{
    match given {
        Some(album) => transcode(dir, album, song),
        None => match parse_id(song.album_cid.as_str()) {
            Some(id) => (
                SongStage::FetchingAlbum { song },
                Action::FetchAlbum { url: album_url(id) },
            ),
            None => halt(ErrorKind::Decode),
        },
    }
}

fn halt(kind: ErrorKind) -> (r: (SongStage, Action))
    ensures
        (r.0@, r.1@) == halted(kind),
{
    (SongStage::Failed { kind }, Action::Abort { kind })
}

fn advance(dir: &str, given: &Option<AlbumContext>, stage: SongStage, event: Event) -> (r: (
    SongStage,
    Action,
))
    ensures
        (r.0@, r.1@) == advanced(dir@, optional_context(*given), stage@, event@),
{
    match stage {
        SongStage::FetchingSong => match event {
            Event::Song(detail) => {
                let path = final_path(dir, detail.data.name.as_str());
                (SongStage::ProbingFinal { song: detail.data }, Action::Probe { path })
            },
            other => halt(other.refusal()),
        },
        SongStage::ProbingFinal { song } => match event {
            Event::Exists(true) => {
                let path = final_path(dir, song.name.as_str());
                (
                    SongStage::Done { song, skipped: true },
                    Action::SongFinished { path, skipped: true },
                )
            },
            Event::Exists(false) => {
                let path = raw_path(dir, song.name.as_str());
                (SongStage::ProbingRaw { song }, Action::Probe { path })
            },
            other => halt(other.refusal()),
        },
        SongStage::ProbingRaw { song } => match event {
            Event::Exists(found) => {
                let path = raw_path(dir, song.name.as_str());
                match download_file(song.source_url.as_str(), path.as_str(), found) {
                    Some(download) => (SongStage::DownloadingRaw { song }, download),
                    None => proceed_with_raw(dir, given, song),
                }
            },
            other => halt(other.refusal()),
        },
        SongStage::DownloadingRaw { song } => match event {
            Event::Done => proceed_with_raw(dir, given, song),
            other => halt(other.refusal()),
        },
        SongStage::FetchingAlbum { song } => match event {
            Event::Album(detail) => {
                let path = cover_path(dir);
                let album = detail.data.context();
                (
                    SongStage::ProbingCover { song, album, cover_url: detail.data.cover_url },
                    Action::Probe { path },
                )
            },
            other => halt(other.refusal()),
        },
        SongStage::ProbingCover { song, album, cover_url } => match event {
            Event::Exists(found) => {
                let path = cover_path(dir);
                match download_file(cover_url.as_str(), path.as_str(), found) {
                    Some(download) => (SongStage::DownloadingCover { song, album }, download),
                    None => transcode(dir, &album, song),
                }
            },
            other => halt(other.refusal()),
        },
        SongStage::DownloadingCover { song, album } => match event {
            Event::Done => transcode(dir, &album, song),
            other => halt(other.refusal()),
        },
        SongStage::Transcoding { song } => match event {
            Event::Done => {
                let path = raw_path(dir, song.name.as_str());
                (SongStage::Removing { song }, Action::Remove { path })
            },
            other => {
                let path = final_path(dir, song.name.as_str());
                (SongStage::Discarding { kind: other.refusal() }, Action::Discard { path })
            },
        },
        SongStage::Removing { song } => match event {
            Event::Done => {
                let path = final_path(dir, song.name.as_str());
                (
                    SongStage::Done { song, skipped: false },
                    Action::SongFinished { path, skipped: false },
                )
            },
            other => halt(other.refusal()),
        },
        SongStage::Discarding { kind } => halt(kind),
        SongStage::Done { song, skipped } => {
            let path = final_path(dir, song.name.as_str());
            (SongStage::Done { song, skipped }, Action::SongFinished { path, skipped })
        },
        SongStage::Failed { kind } => (SongStage::Failed { kind }, Action::Abort { kind }),
    }
}

/// Begins the work on the song `song_id`, to be placed in `parent_path`. Where
/// the caller holds the song's album, it hands it in as `album`, and the run
/// will not ask for it again.
pub fn get_song(parent_path: String, song_id: u64, album: Option<AlbumContext>) -> (r: (
    SongRun,
    Action,
))
    ensures
        (r.0@, r.1@) == song_start(parent_path@, song_id, optional_context(album)),
{
    (
        SongRun { dir: parent_path, album, stage: SongStage::FetchingSong },
        Action::FetchSong { url: song_url(song_id) },
    )
}

impl SongRun {
    /// Takes the driver's answer to the last action and says what to do next.
    pub fn step(self, event: Event) -> (r: (SongRun, Action))
        ensures
            (r.0@, r.1@) == song_next(self@, event@),
    {
        let SongRun { dir, album, stage } = self;
        let (stage, action) = advance(dir.as_str(), &album, stage, event);
        (SongRun { dir, album, stage }, action)
    }
}

} // verus!
