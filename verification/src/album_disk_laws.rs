//! What a run on an album leaves on disk.

use crate::album::{album_next, album_start, AlbumRunView, AlbumStageView};
use crate::album_laws::lemma_album_step;
use crate::disk::{may_follow, target};
use crate::layout::{
    album_dir_of, cover_path_of, final_path_of, lemma_file_is_not_its_directory,
    lemma_paths_differ, raw_path_of,
};
use crate::records::AlbumDetailView;
use crate::song::SongStageView;
use crate::song_laws::{
    awaited, files_in_place, lemma_song_awaits_its_action, lemma_song_files_step,
};
use crate::steps::{ActionView, EventView};
use vstd::prelude::*;

verus! {

/// Every raw-audio file of `dir` that is on `disk` was there at the start, or
/// is the file at `but`.
pub open spec fn no_raw_audio_but(
    dir: Seq<char>,
    disk: Set<Seq<char>>,
    initial: Set<Seq<char>>,
    but: Option<Seq<char>>,
) -> bool {
    forall|name: Seq<char>|
        disk.contains(#[trigger] raw_path_of(dir, name)) ==> initial.contains(
            raw_path_of(dir, name),
        ) || but == Some(raw_path_of(dir, name))
}

/// The raw audio that a song at `stage` may have on disk for the time being.
pub open spec fn raw_at_work(dir: Seq<char>, stage: SongStageView) -> Option<Seq<char>> {
    match stage {
        SongStageView::DownloadingRaw { song } => Some(raw_path_of(dir, song.name)),
        SongStageView::Transcoding { song } => Some(raw_path_of(dir, song.name)),
        SongStageView::Removing { song } => Some(raw_path_of(dir, song.name)),
        _ => None,
    }
}

/// The run and the disk agree: the pending action is the one that the stage
/// waits for, the album goes to `dir`, the cover is there once the songs have
/// begun, the files that the song at work counts on are in place, and the
/// only raw audio that the run has added to `dir` is that of the song at
/// work. `initial` is the disk at the start of the run.
pub open spec fn album_consistent(
    s: AlbumRunView,
    pending: ActionView,
    disk: Set<Seq<char>>,
    initial: Set<Seq<char>>,
    dir: Seq<char>,
) -> bool {
    match s.stage {
        AlbumStageView::FetchingAlbum => pending is FetchAlbum && disk == initial,
        AlbumStageView::CreatingDir { album } => {
            &&& dir == album_dir_of(s.parent, album.name)
            &&& pending == ActionView::CreateDir { path: dir }
            &&& disk == initial
        },
        AlbumStageView::ProbingCover { album } => {
            &&& dir == album_dir_of(s.parent, album.name)
            &&& pending == ActionView::Probe { path: cover_path_of(dir) }
            &&& no_raw_audio_but(dir, disk, initial, None)
        },
        AlbumStageView::DownloadingCover { album } => {
            &&& dir == album_dir_of(s.parent, album.name)
            &&& pending == ActionView::Download { url: album.cover_url, path: cover_path_of(dir) }
            &&& no_raw_audio_but(dir, disk, initial, None)
        },
        AlbumStageView::InSong { album, index, song } => {
            &&& dir == album_dir_of(s.parent, album.name)
            &&& song.dir == dir
            &&& awaited(song, pending)
            &&& song.stage is Discarding || {
                &&& disk.contains(cover_path_of(dir))
                &&& files_in_place(song, disk)
                &&& no_raw_audio_but(dir, disk, initial, raw_at_work(dir, song.stage))
            }
        },
        AlbumStageView::Done => pending is Finished && no_raw_audio_but(dir, disk, initial, None),
        AlbumStageView::Failed { kind } => pending is Abort,
    }
}

/// `dir` is the directory of the album that `event` brings, where the run
/// waits for its album.
pub open spec fn names_dir(s: AlbumRunView, event: EventView, dir: Seq<char>) -> bool {
    s.stage is FetchingAlbum ==> (event matches EventView::Album(detail) ==> dir == album_dir_of(
        s.parent,
        detail.data.name,
    ))
}

/// The driver may have answered the run with `steps`: each step is an event
/// and the disk as the action left it.
pub open spec fn album_possible(
    s: AlbumRunView,
    pending: ActionView,
    disk: Set<Seq<char>>,
    steps: Seq<(EventView, Set<Seq<char>>)>,
) -> bool
    decreases steps.len(),
{
    if steps.len() == 0 {
        true
    } else {
        let (event, after) = steps[0];
        let (next, action) = album_next(s, event);
        &&& may_follow(disk, pending, event, after)
        &&& album_possible(next, action, after, steps.skip(1))
    }
}

/// The run, its pending action and the disk after `steps`.
pub open spec fn album_outcome(
    s: AlbumRunView,
    pending: ActionView,
    disk: Set<Seq<char>>,
    steps: Seq<(EventView, Set<Seq<char>>)>,
) -> (AlbumRunView, ActionView, Set<Seq<char>>)
    decreases steps.len(),
{
    if steps.len() == 0 {
        (s, pending, disk)
    } else {
        let (event, after) = steps[0];
        let (next, action) = album_next(s, event);
        album_outcome(next, action, after, steps.skip(1))
    }
}

/// An action that leaves the raw audio of `dir` alone, but for the file at
/// `but`, keeps the disk free of new raw audio.
proof fn lemma_raw_audio_untouched(
    dir: Seq<char>,
    before: Set<Seq<char>>,
    after: Set<Seq<char>>,
    initial: Set<Seq<char>>,
    changed: Option<Seq<char>>,
    was: Option<Seq<char>>,
    but: Option<Seq<char>>,
)
    requires
        no_raw_audio_but(dir, before, initial, was),
        match changed {
            Some(path) => after.remove(path) == before.remove(path),
            None => after == before,
        },
        forall|name: Seq<char>|
            changed == Some(#[trigger] raw_path_of(dir, name)) ==> but == changed
                || !after.contains(raw_path_of(dir, name)),
        forall|name: Seq<char>|
            was == Some(#[trigger] raw_path_of(dir, name)) ==> but == was || !after.contains(
                raw_path_of(dir, name),
            ),
    ensures
        no_raw_audio_but(dir, after, initial, but),
{
    assert forall|name: Seq<char>| after.contains(#[trigger] raw_path_of(dir, name)) implies (
    initial.contains(raw_path_of(dir, name)) || but == Some(raw_path_of(dir, name))) by {
        let path = raw_path_of(dir, name);
        match changed {
            Some(target) => {
                if path != target {
                    assert(before.remove(target).contains(path));
                }
            },
            None => {},
        }
    }
}

/// One step keeps the run and the disk in agreement.
pub proof fn lemma_album_step_consistent(
    s: AlbumRunView,
    pending: ActionView,
    disk: Set<Seq<char>>,
    initial: Set<Seq<char>>,
    dir: Seq<char>,
    event: EventView,
    after: Set<Seq<char>>,
)
    requires
        s.orderly(),
        album_consistent(s, pending, disk, initial, dir),
        names_dir(s, event, dir),
        may_follow(disk, pending, event, after),
    ensures
        album_consistent(album_next(s, event).0, album_next(s, event).1, after, initial, dir),
{
    let (next, action) = album_next(s, event);
    lemma_album_step(s, event);
    match s.stage {
        AlbumStageView::FetchingAlbum => {},
        AlbumStageView::CreatingDir { album } => {
            assert forall|name: Seq<char>| dir != #[trigger] raw_path_of(dir, name) by {
                lemma_file_is_not_its_directory(dir, name);
            }
            lemma_raw_audio_untouched(dir, disk, after, initial, Some(dir), None, None);
        },
        AlbumStageView::ProbingCover { album } => {
            lemma_raw_audio_untouched(dir, disk, after, initial, None, None, None);
        },
        AlbumStageView::DownloadingCover { album } => {
            let cover = cover_path_of(dir);
            assert forall|name: Seq<char>| cover != #[trigger] raw_path_of(dir, name) by {
                lemma_paths_differ(dir, name, dir, name, dir);
            }
            lemma_raw_audio_untouched(dir, disk, after, initial, Some(cover), None, None);
        },
        AlbumStageView::InSong { album, index, song } => {
            lemma_song_awaits_its_action(song, event);
            let was = raw_at_work(dir, song.stage);
            let but = if next.stage is InSong {
                raw_at_work(dir, next.stage->InSong_song.stage)
            } else {
                None
            };
            if !(next.stage is Failed) && !(song.stage is Discarding) && !(next.stage is InSong
                && next.stage->InSong_song.stage is Discarding) {
                lemma_song_files_step(song, pending, disk, event, after);
                if song.song_of_stage() is Some {
                    // What the song's actions touch is neither the cover nor
                    // another song's raw audio.
                    let name = song.song_of_stage()->0.name;
                    lemma_paths_differ(dir, name, dir, name, dir);
                    assert forall|other: Seq<char>|
                        final_path_of(dir, name) != #[trigger] raw_path_of(dir, other) by {
                        lemma_paths_differ(dir, other, dir, name, dir);
                    }
                }
                let cover = cover_path_of(dir);
                match target(pending) {
                    Some(path) => {
                        assert(after.remove(path).contains(cover) == disk.remove(path).contains(
                            cover,
                        ));
                    },
                    None => {},
                }
                lemma_raw_audio_untouched(dir, disk, after, initial, target(pending), was, but);
            }
        },
        AlbumStageView::Done => {
            lemma_raw_audio_untouched(dir, disk, after, initial, None, None, None);
        },
        AlbumStageView::Failed { kind } => {},
    }
}

/// Every number of steps keeps the run and the disk in agreement.
pub proof fn lemma_album_stays_consistent(
    s: AlbumRunView,
    pending: ActionView,
    disk: Set<Seq<char>>,
    initial: Set<Seq<char>>,
    dir: Seq<char>,
    steps: Seq<(EventView, Set<Seq<char>>)>,
)
    requires
        s.orderly(),
        album_consistent(s, pending, disk, initial, dir),
        album_possible(s, pending, disk, steps),
        steps.len() > 0 ==> names_dir(s, steps[0].0, dir),
    ensures
        ({
            let (end, last, left) = album_outcome(s, pending, disk, steps);
            album_consistent(end, last, left, initial, dir)
        }),
    decreases steps.len(),
{
    if steps.len() > 0 {
        let (event, after) = steps[0];
        let (next, action) = album_next(s, event);
        lemma_album_step(s, event);
        lemma_album_step_consistent(s, pending, disk, initial, dir, event, after);
        lemma_album_stays_consistent(next, action, after, initial, dir, steps.skip(1));
    }
}

/// Within an album, the transcoder finds all its files.
///
/// Take any run on an album, from its start, and any answers that a driver
/// may give to it, the first of them the album. Whenever the run asks for the
/// transcoder, the raw audio and the cover are on disk and the finished file
/// is not.
pub proof fn law_album_transcoder_finds_its_files(
    parent: Seq<char>,
    id: u64,
    detail: AlbumDetailView,
    initial: Set<Seq<char>>,
    steps: Seq<(EventView, Set<Seq<char>>)>,
)
    requires
        album_possible(album_start(parent, id).0, album_start(parent, id).1, initial, steps),
        steps.len() > 0,
        steps[0].0 == EventView::Album(detail),
    ensures
        ({
            let (end, last, left) = album_outcome(
                album_start(parent, id).0,
                album_start(parent, id).1,
                initial,
                steps,
            );
            last matches ActionView::Transcode { job } ==> {
                &&& left.contains(job.input)
                &&& left.contains(job.cover)
                &&& !left.contains(job.output)
            }
        }),
{
    let (start, first) = album_start(parent, id);
    let dir = album_dir_of(parent, detail.data.name);
    lemma_album_stays_consistent(start, first, initial, initial, dir, steps);
}

/// A complete album leaves no raw audio behind.
///
/// Take any run on an album, from its start, and any answers that a driver
/// may give to it on a disk that starts as `initial`, the first of them the
/// album. If the run ends complete, then every raw-audio file that is in the
/// album's directory was there before the run began: what the run downloaded
/// it has removed again, whatever the songs are called.
pub proof fn law_complete_album_leaves_no_raw_audio(
    parent: Seq<char>,
    id: u64,
    detail: AlbumDetailView,
    initial: Set<Seq<char>>,
    steps: Seq<(EventView, Set<Seq<char>>)>,
    name: Seq<char>,
)
    requires
        album_possible(album_start(parent, id).0, album_start(parent, id).1, initial, steps),
        steps.len() > 0,
        steps[0].0 == EventView::Album(detail),
        album_outcome(album_start(parent, id).0, album_start(parent, id).1, initial, steps).0.stage
            is Done,
    ensures
        ({
            let dir = album_dir_of(parent, detail.data.name);
            let left = album_outcome(
                album_start(parent, id).0,
                album_start(parent, id).1,
                initial,
                steps,
            ).2;
            left.contains(raw_path_of(dir, name)) ==> initial.contains(raw_path_of(dir, name))
        }),
{
    let (start, first) = album_start(parent, id);
    let dir = album_dir_of(parent, detail.data.name);
    lemma_album_stays_consistent(start, first, initial, initial, dir, steps);
}

} // verus!
