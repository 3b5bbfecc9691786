//! What holds of every run on one song, whatever the driver reports.

use crate::disk::may_follow;
use crate::endpoints::song_url_of;
use crate::layout::{cover_path_of, final_path_of, lemma_paths_differ, raw_path_of};
use crate::records::{AlbumContextView, SongDetailView};
use crate::song::{song_next, song_start, SongRunView, SongStageView};
use crate::steps::{ActionView, EventView};
use vstd::prelude::*;

verus! {

/// The actions that a run hands out in answer to `events`, one for each.
pub open spec fn song_actions(s: SongRunView, events: Seq<EventView>) -> Seq<ActionView>
    decreases events.len(),
{
    if events.len() == 0 {
        Seq::empty()
    } else {
        let (next, action) = song_next(s, events[0]);
        seq![action] + song_actions(next, events.skip(1))
    }
}

/// The run after `events`.
pub open spec fn song_after(s: SongRunView, events: Seq<EventView>) -> SongRunView
    decreases events.len(),
{
    if events.len() == 0 {
        s
    } else {
        song_after(song_next(s, events[0]).0, events.skip(1))
    }
}

/// A run answers each event with one action.
pub proof fn lemma_one_action_per_event(s: SongRunView, events: Seq<EventView>)
    ensures
        song_actions(s, events).len() == events.len(),
    decreases events.len(),
{
    if events.len() > 0 {
        lemma_one_action_per_event(song_next(s, events[0]).0, events.skip(1));
    }
}

/// A run that has ended answers every event with its last word and stays as
/// it is.
pub proof fn lemma_song_end_is_final(s: SongRunView, events: Seq<EventView>, i: int)
    requires
        s.ended(),
        0 <= i < events.len(),
    ensures
        song_after(s, events) == s,
        song_actions(s, events).len() == events.len(),
        s.stage matches SongStageView::Done { song, skipped } ==> song_actions(s, events)[i] == (
        ActionView::SongFinished { path: final_path_of(s.dir, song.name), skipped }),
        s.stage matches SongStageView::Failed { kind } ==> song_actions(s, events)[i] == (
        ActionView::Abort { kind }),
    decreases events.len(),
{
    lemma_one_action_per_event(s, events);
    if i > 0 {
        lemma_song_end_is_final(s, events.skip(1), i - 1);
    } else if events.len() > 1 {
        lemma_song_end_is_final(s, events.skip(1), 0);
    }
}

/// A song whose finished file is there is not worked on again.
///
/// The run asks for the song's record, which names the file, and probes the
/// file. Told that it exists, the run ends with that path, marked as skipped,
/// and whatever is reported afterwards it hands out nothing else: no request
/// goes to the network and nothing is written.
pub proof fn law_finished_song_is_skipped(
    dir: Seq<char>,
    id: u64,
    album: Option<AlbumContextView>,
    detail: SongDetailView,
    later: Seq<EventView>,
)
    ensures
        ({
            let (start, first) = song_start(dir, id, album);
            let events = seq![EventView::Song(detail), EventView::Exists(true)] + later;
            let actions = song_actions(start, events);
            let path = final_path_of(dir, detail.data.name);
            &&& first == ActionView::FetchSong { url: song_url_of(id) }
            &&& actions.len() == events.len()
            &&& actions[0] == ActionView::Probe { path }
            &&& forall|i: int|
                1 <= i < actions.len() ==> actions[i] == ActionView::SongFinished {
                    path,
                    skipped: true,
                }
            &&& forall|i: int| 1 <= i < actions.len() ==> !(#[trigger] actions[i]).is_network()
        }),
{
    let (start, first) = song_start(dir, id, album);
    let events = seq![EventView::Song(detail), EventView::Exists(true)] + later;
    let actions = song_actions(start, events);
    let path = final_path_of(dir, detail.data.name);
    lemma_one_action_per_event(start, events);
    let (probing, probe) = song_next(start, events[0]);
    let rest = events.skip(1);
    let (done, word) = song_next(probing, rest[0]);
    let tail = rest.skip(1);
    assert(song_actions(probing, rest) == seq![word] + song_actions(done, tail));
    assert forall|i: int| 1 <= i < actions.len() implies actions[i] == ActionView::SongFinished {
        path,
        skipped: true,
    } by {
        if i >= 2 {
            lemma_song_end_is_final(done, tail, i - 2);
        }
    }
}

/// `pending` is the action whose answer a run at this stage waits for, or
/// the last word of a run that has ended.
pub open spec fn awaited(s: SongRunView, pending: ActionView) -> bool {
    match s.stage {
        SongStageView::FetchingSong => pending is FetchSong,
        SongStageView::ProbingFinal { song } => pending == (ActionView::Probe {
            path: final_path_of(s.dir, song.name),
        }),
        SongStageView::ProbingRaw { song } => pending == (ActionView::Probe {
            path: raw_path_of(s.dir, song.name),
        }),
        SongStageView::DownloadingRaw { song } => pending == (ActionView::Download {
            url: song.source_url,
            path: raw_path_of(s.dir, song.name),
        }),
        SongStageView::FetchingAlbum { song } => pending is FetchAlbum,
        SongStageView::ProbingCover { song, album, cover_url } => pending == (ActionView::Probe {
            path: cover_path_of(s.dir),
        }),
        SongStageView::DownloadingCover { song, album } => {
            &&& pending matches ActionView::Download { url, path }
            &&& path == cover_path_of(s.dir)
        },
        SongStageView::Transcoding { song } => {
            &&& pending matches ActionView::Transcode { job }
            &&& job.input == raw_path_of(s.dir, song.name)
            &&& job.cover == cover_path_of(s.dir)
            &&& job.output == final_path_of(s.dir, song.name)
        },
        SongStageView::Removing { song } => pending == (ActionView::Remove {
            path: raw_path_of(s.dir, song.name),
        }),
        SongStageView::Discarding { kind } => pending is Discard,
        SongStageView::Done { song, skipped } => pending == (ActionView::SongFinished {
            path: final_path_of(s.dir, song.name),
            skipped,
        }),
        SongStageView::Failed { kind } => pending == (ActionView::Abort { kind }),
    }
}

/// The action that a step hands out is the one that the new stage waits for.
pub proof fn lemma_song_awaits_its_action(s: SongRunView, event: EventView)
    ensures
        awaited(song_next(s, event).0, song_next(s, event).1),
{
}

/// The files that the stage counts on are on disk, and the finished file is
/// not, until the transcoder has written it.
pub open spec fn files_in_place(s: SongRunView, disk: Set<Seq<char>>) -> bool {
    match s.stage {
        SongStageView::ProbingRaw { song } => !disk.contains(final_path_of(s.dir, song.name)),
        SongStageView::DownloadingRaw { song } => !disk.contains(final_path_of(s.dir, song.name)),
        SongStageView::FetchingAlbum { song } => {
            &&& !disk.contains(final_path_of(s.dir, song.name))
            &&& disk.contains(raw_path_of(s.dir, song.name))
        },
        SongStageView::ProbingCover { song, album, cover_url } => {
            &&& !disk.contains(final_path_of(s.dir, song.name))
            &&& disk.contains(raw_path_of(s.dir, song.name))
        },
        SongStageView::DownloadingCover { song, album } => {
            &&& !disk.contains(final_path_of(s.dir, song.name))
            &&& disk.contains(raw_path_of(s.dir, song.name))
        },
        SongStageView::Transcoding { song } => {
            &&& !disk.contains(final_path_of(s.dir, song.name))
            &&& disk.contains(raw_path_of(s.dir, song.name))
            &&& s.album is None ==> disk.contains(cover_path_of(s.dir))
        },
        SongStageView::Removing { song } => disk.contains(final_path_of(s.dir, song.name)),
        _ => true,
    }
}

/// One step keeps the files in place.
pub proof fn lemma_song_files_step(
    s: SongRunView,
    pending: ActionView,
    disk: Set<Seq<char>>,
    event: EventView,
    after: Set<Seq<char>>,
)
    requires
        awaited(s, pending),
        files_in_place(s, disk),
        may_follow(disk, pending, event, after),
    ensures
        files_in_place(song_next(s, event).0, after),
{
    if s.song_of_stage() is Some {
        let song = s.song_of_stage()->0;
        lemma_paths_differ(s.dir, song.name, s.dir, song.name, s.dir);
    }
}

/// The run and the disk agree: the pending action is the one that the stage
/// waits for, the files that the stage counts on are in place, and the disk
/// holds what the stages so far have left on it. `initial` is the disk at the
/// start of the run.
pub open spec fn song_consistent(
    s: SongRunView,
    pending: ActionView,
    disk: Set<Seq<char>>,
    initial: Set<Seq<char>>,
) -> bool {
    &&& awaited(s, pending)
    &&& files_in_place(s, disk)
    &&& match s.stage {
        SongStageView::FetchingSong => disk == initial,
        SongStageView::ProbingFinal { song } => disk == initial,
        SongStageView::Done { song, skipped } => {
            &&& disk.contains(final_path_of(s.dir, song.name))
            &&& skipped ==> disk == initial
            &&& !skipped ==> !disk.contains(raw_path_of(s.dir, song.name))
        },
        _ => true,
    }
}

/// The driver may have answered the run with `steps`: each step is an event
/// and the disk as the action left it.
pub open spec fn song_possible(
    s: SongRunView,
    pending: ActionView,
    disk: Set<Seq<char>>,
    steps: Seq<(EventView, Set<Seq<char>>)>,
) -> bool
    decreases steps.len(),
{
    if steps.len() == 0 {
        true
    } else {
        let (event, after) = steps[0];
        let (next, action) = song_next(s, event);
        &&& may_follow(disk, pending, event, after)
        &&& song_possible(next, action, after, steps.skip(1))
    }
}

/// The run, its pending action and the disk after `steps`.
pub open spec fn song_outcome(
    s: SongRunView,
    pending: ActionView,
    disk: Set<Seq<char>>,
    steps: Seq<(EventView, Set<Seq<char>>)>,
) -> (SongRunView, ActionView, Set<Seq<char>>)
    decreases steps.len(),
{
    if steps.len() == 0 {
        (s, pending, disk)
    } else {
        let (event, after) = steps[0];
        let (next, action) = song_next(s, event);
        song_outcome(next, action, after, steps.skip(1))
    }
}

/// One step keeps the run and the disk in agreement.
pub proof fn lemma_song_step_consistent(
    s: SongRunView,
    pending: ActionView,
    disk: Set<Seq<char>>,
    initial: Set<Seq<char>>,
    event: EventView,
    after: Set<Seq<char>>,
)
    requires
        song_consistent(s, pending, disk, initial),
        may_follow(disk, pending, event, after),
    ensures
        song_consistent(song_next(s, event).0, song_next(s, event).1, after, initial),
{
    lemma_song_files_step(s, pending, disk, event, after);
    match s.stage {
        SongStageView::Removing { song } => {
            lemma_paths_differ(s.dir, song.name, s.dir, song.name, s.dir);
            let raw = raw_path_of(s.dir, song.name);
            let output = final_path_of(s.dir, song.name);
            assert(after.remove(raw).contains(output));
        },
        _ => {},
    }
}

/// Every number of steps keeps the run and the disk in agreement.
pub proof fn lemma_song_stays_consistent(
    s: SongRunView,
    pending: ActionView,
    disk: Set<Seq<char>>,
    initial: Set<Seq<char>>,
    steps: Seq<(EventView, Set<Seq<char>>)>,
)
    requires
        song_consistent(s, pending, disk, initial),
        song_possible(s, pending, disk, steps),
    ensures
        ({
            let (end, last, left) = song_outcome(s, pending, disk, steps);
            song_consistent(end, last, left, initial)
        }),
    decreases steps.len(),
{
    if steps.len() > 0 {
        let (event, after) = steps[0];
        let (next, action) = song_next(s, event);
        lemma_song_step_consistent(s, pending, disk, initial, event, after);
        lemma_song_stays_consistent(next, action, after, initial, steps.skip(1));
    }
}

/// What a finished song leaves on disk.
///
/// Take any run on a song, from its start, and any answers that a driver may
/// give to it on a disk that starts as `initial`. If the run ends with the
/// song finished, then the finished file is on disk. If the song was worked
/// on, its raw audio is not on disk any more. If it was skipped, the disk is
/// as it was at the start.
pub proof fn law_finished_song_leaves_no_raw_audio(
    dir: Seq<char>,
    id: u64,
    album: Option<AlbumContextView>,
    initial: Set<Seq<char>>,
    steps: Seq<(EventView, Set<Seq<char>>)>,
)
    requires
        song_possible(song_start(dir, id, album).0, song_start(dir, id, album).1, initial, steps),
    ensures
        ({
            let (start, first) = song_start(dir, id, album);
            let (end, last, left) = song_outcome(start, first, initial, steps);
            end.stage matches SongStageView::Done { song, skipped } ==> {
                &&& last == ActionView::SongFinished {
                    path: final_path_of(dir, song.name),
                    skipped,
                }
                &&& left.contains(final_path_of(dir, song.name))
                &&& !skipped ==> !left.contains(raw_path_of(dir, song.name))
                &&& skipped ==> left == initial
            }
        }),
{
    let (start, first) = song_start(dir, id, album);
    lemma_song_stays_consistent(start, first, initial, initial, steps);
    lemma_song_keeps_dir(start, first, initial, steps);
}

/// A song that is on disk is left alone.
///
/// Take a disk that holds the finished file of a song, and any run on that
/// song, from its start, that is handed the song's record and then an answer
/// to its probe. The answer can only be that the file exists; the run ends
/// with the song skipped, and the disk is still as it was, whatever is
/// reported afterwards.
pub proof fn law_song_on_disk_is_left_alone(
    dir: Seq<char>,
    id: u64,
    album: Option<AlbumContextView>,
    detail: SongDetailView,
    initial: Set<Seq<char>>,
    steps: Seq<(EventView, Set<Seq<char>>)>,
)
    requires
        initial.contains(final_path_of(dir, detail.data.name)),
        song_possible(song_start(dir, id, album).0, song_start(dir, id, album).1, initial, steps),
        steps.len() >= 2,
        steps[0].0 == EventView::Song(detail),
        steps[1].0 is Exists,
    ensures
        steps[1].0 == EventView::Exists(true),
        ({
            let (start, first) = song_start(dir, id, album);
            let (end, last, left) = song_outcome(start, first, initial, steps);
            &&& end.stage == (SongStageView::Done { song: detail.data, skipped: true })
            &&& last == ActionView::SongFinished {
                path: final_path_of(dir, detail.data.name),
                skipped: true,
            }
            &&& left == initial
        }),
{
    let (start, first) = song_start(dir, id, album);
    let (probing, probe) = song_next(start, steps[0].0);
    let rest = steps.skip(1);
    let (done, word) = song_next(probing, rest[0].0);
    let tail = rest.skip(1);
    assert(song_possible(probing, probe, steps[0].1, rest));
    assert(song_outcome(probing, probe, steps[0].1, rest) == song_outcome(
        done,
        word,
        rest[0].1,
        tail,
    ));
    lemma_song_stays_consistent(done, word, rest[0].1, initial, tail);
    lemma_ended_song_outcome(done, word, rest[0].1, tail);
}

/// A run that has ended keeps its stage and its last word, and the disk
/// stays as it is: the last word asks for nothing.
pub proof fn lemma_ended_song_outcome(
    s: SongRunView,
    pending: ActionView,
    disk: Set<Seq<char>>,
    steps: Seq<(EventView, Set<Seq<char>>)>,
)
    requires
        s.ended(),
        pending == song_next(s, EventView::Done).1,
    ensures
        song_outcome(s, pending, disk, steps).0 == s,
        song_outcome(s, pending, disk, steps).1 == pending,
        song_possible(s, pending, disk, steps) ==> song_outcome(s, pending, disk, steps).2 == disk,
    decreases steps.len(),
{
    if steps.len() > 0 {
        let (event, after) = steps[0];
        lemma_ended_song_outcome(s, pending, after, steps.skip(1));
    }
}

/// A run in two parts: the answers of the second part follow those of the
/// first, and the outcome of the whole is the outcome of the second part
/// begun where the first ended.
pub proof fn lemma_song_run_in_parts(
    s: SongRunView,
    pending: ActionView,
    disk: Set<Seq<char>>,
    first: Seq<(EventView, Set<Seq<char>>)>,
    second: Seq<(EventView, Set<Seq<char>>)>,
)
    ensures
        ({
            let (middle, word, left) = song_outcome(s, pending, disk, first);
            &&& song_outcome(s, pending, disk, first + second) == song_outcome(
                middle,
                word,
                left,
                second,
            )
            &&& song_possible(s, pending, disk, first + second) == (song_possible(
                s,
                pending,
                disk,
                first,
            ) && song_possible(middle, word, left, second))
        }),
    decreases first.len(),
{
    let whole = first + second;
    if first.len() == 0 {
        assert(whole =~= second);
    } else {
        let (event, after) = first[0];
        let (next, action) = song_next(s, event);
        assert(whole.skip(1) =~= first.skip(1) + second);
        lemma_song_run_in_parts(next, action, after, first.skip(1), second);
    }
}

/// A run never changes its directory.
pub proof fn lemma_song_keeps_dir(
    s: SongRunView,
    pending: ActionView,
    disk: Set<Seq<char>>,
    steps: Seq<(EventView, Set<Seq<char>>)>,
)
    ensures
        song_outcome(s, pending, disk, steps).0.dir == s.dir,
        song_outcome(s, pending, disk, steps).0.album == s.album,
    decreases steps.len(),
{
    if steps.len() > 0 {
        let (event, after) = steps[0];
        let (next, action) = song_next(s, event);
        lemma_song_keeps_dir(next, action, after, steps.skip(1));
    }
}

/// The transcoder finds its files.
///
/// Take any run on a song, from its start, and any answers that a driver may
/// give to it. Whenever the run asks for the transcoder, the raw audio is on
/// disk and the finished file is not. The cover is on disk too where the run
/// looked up the album itself; where the album was handed in, the cover is
/// the business of whoever handed it in.
pub proof fn law_transcoder_finds_its_files(
    dir: Seq<char>,
    id: u64,
    album: Option<AlbumContextView>,
    initial: Set<Seq<char>>,
    steps: Seq<(EventView, Set<Seq<char>>)>,
)
    requires
        song_possible(song_start(dir, id, album).0, song_start(dir, id, album).1, initial, steps),
    ensures
        ({
            let (start, first) = song_start(dir, id, album);
            let (end, last, left) = song_outcome(start, first, initial, steps);
            last matches ActionView::Transcode { job } ==> {
                &&& left.contains(job.input)
                &&& !left.contains(job.output)
                &&& album is None ==> left.contains(job.cover)
            }
        }),
{
    let (start, first) = song_start(dir, id, album);
    lemma_song_stays_consistent(start, first, initial, initial, steps);
    lemma_song_keeps_dir(start, first, initial, steps);
}

/// A failed transcoder ends the run, and leaves no finished file behind.
///
/// Take any run on a song, from its start, and any answers that a driver may
/// give to it: those in `before`, which bring the run to the transcoder, then
/// `failure`, which is anything but the report that the transcoder has done
/// its work, then those in `later`.
///
/// - The song is never reported as finished.
/// - The run answers the failure by asking for the finished file to be
///   discarded, whatever there is of it, and whatever is reported next it
///   ends with the kind of the transcoder's failure and stays so.
/// - If the discarding is reported done, the finished file is not on disk
///   then, nor at any time after.
///
/// Where the discarding itself fails, the file may stay: that is the disk's
/// doing, and the run still ends with the transcoder's failure.
pub proof fn law_failed_transcode_leaves_no_output(
    dir: Seq<char>,
    id: u64,
    album: Option<AlbumContextView>,
    initial: Set<Seq<char>>,
    before: Seq<(EventView, Set<Seq<char>>)>,
    failure: (EventView, Set<Seq<char>>),
    later: Seq<(EventView, Set<Seq<char>>)>,
)
    requires
        song_possible(
            song_start(dir, id, album).0,
            song_start(dir, id, album).1,
            initial,
            before + seq![failure] + later,
        ),
        song_outcome(
            song_start(dir, id, album).0,
            song_start(dir, id, album).1,
            initial,
            before,
        ).0.stage is Transcoding,
        !(failure.0 is Done),
    ensures
        ({
            let (start, first) = song_start(dir, id, album);
            let song = song_outcome(start, first, initial, before).0.stage->Transcoding_song;
            let output = final_path_of(dir, song.name);
            let kind = failure.0.refusal();
            let (end, last, left) = song_outcome(
                start,
                first,
                initial,
                before + seq![failure] + later,
            );
            &&& !(end.stage is Done)
            &&& !(last is SongFinished)
            &&& later.len() == 0 ==> end.stage == (SongStageView::Discarding { kind }) && last
                == (ActionView::Discard { path: output })
            &&& later.len() > 0 ==> end.stage == (SongStageView::Failed { kind }) && last
                == (ActionView::Abort { kind })
            &&& later.len() > 0 && later[0].0 is Done ==> !left.contains(output)
        }),
{
    let (start, first) = song_start(dir, id, album);
    let (run, pending, disk) = song_outcome(start, first, initial, before);
    let tail = seq![failure] + later;
    assert(before + seq![failure] + later =~= before + tail);
    lemma_song_run_in_parts(start, first, initial, before, tail);
    lemma_song_stays_consistent(start, first, initial, initial, before);
    lemma_song_keeps_dir(start, first, initial, before);
    let (discarding, discard) = song_next(run, failure.0);
    assert(tail.skip(1) =~= later);
    assert(song_outcome(run, pending, disk, tail) == song_outcome(
        discarding,
        discard,
        failure.1,
        later,
    ));
    assert(song_possible(discarding, discard, failure.1, later));
    if later.len() > 0 {
        let (end, last) = song_next(discarding, later[0].0);
        lemma_ended_song_outcome(end, last, later[0].1, later.skip(1));
    }
}

/// How many answers a run at `stage` has had at most. An answer never leads
/// to a stage with a smaller number, and only the end is numbered nine.
pub open spec fn progress(stage: SongStageView) -> nat {
    match stage {
        SongStageView::FetchingSong => 0,
        SongStageView::ProbingFinal { song } => 1,
        SongStageView::ProbingRaw { song } => 2,
        SongStageView::DownloadingRaw { song } => 3,
        SongStageView::FetchingAlbum { song } => 4,
        SongStageView::ProbingCover { song, album, cover_url } => 5,
        SongStageView::DownloadingCover { song, album } => 6,
        SongStageView::Transcoding { song } => 7,
        SongStageView::Removing { song } => 8,
        SongStageView::Discarding { kind } => 8,
        SongStageView::Done { song, skipped } => 9,
        SongStageView::Failed { kind } => 9,
    }
}

/// Every answer brings a run that has not ended nearer to its end.
pub proof fn lemma_song_moves_on(s: SongRunView, event: EventView)
    ensures
        progress(s.stage) <= 9,
        s.ended() <==> progress(s.stage) == 9,
        !s.ended() ==> progress(song_next(s, event).0.stage) > progress(s.stage),
        s.ended() ==> song_next(s, event).0 == s,
{
}

/// A run that has had enough answers has ended.
pub proof fn lemma_song_ends(s: SongRunView, events: Seq<EventView>)
    requires
        progress(s.stage) + events.len() >= 9,
    ensures
        song_after(s, events).ended(),
    decreases events.len(),
{
    if events.len() > 0 {
        lemma_song_moves_on(s, events[0]);
        lemma_song_ends(song_next(s, events[0]).0, events.skip(1));
    } else {
        lemma_song_moves_on(s, EventView::Done);
    }
}

/// The work on a song ends after nine answers at most.
///
/// Nothing is tried twice and nothing is waited for twice: whatever the
/// driver reports, each answer moves the run forward, and the ninth answer at
/// the latest finds the song finished or the run given up.
pub proof fn law_song_run_ends(
    dir: Seq<char>,
    id: u64,
    album: Option<AlbumContextView>,
    events: Seq<EventView>,
)
    requires
        events.len() >= 9,
    ensures
        song_after(song_start(dir, id, album).0, events).ended(),
{
    lemma_song_ends(song_start(dir, id, album).0, events);
}

/// The action downloads the cover of the directory `dir`.
pub open spec fn downloads_cover(action: ActionView, dir: Seq<char>) -> bool {
    action matches ActionView::Download { url, path } && path == cover_path_of(dir)
}

/// A run that was handed its album keeps to its song: it asks for no album
/// and for no catalog.
pub proof fn lemma_song_with_album(s: SongRunView, event: EventView)
    requires
        s.keeps_to_song(),
    ensures
        song_next(s, event).0.keeps_to_song(),
        !(song_next(s, event).1 is FetchAlbum),
        !(song_next(s, event).1 is FetchCatalog),
{
}

/// A run that was handed its album downloads no cover, into no directory.
pub proof fn lemma_song_downloads_no_cover(s: SongRunView, event: EventView, dir: Seq<char>)
    requires
        s.keeps_to_song(),
    ensures
        !downloads_cover(song_next(s, event).1, dir),
{
    match s.stage {
        SongStageView::ProbingRaw { song } => {
            lemma_paths_differ(s.dir, song.name, s.dir, song.name, dir);
        },
        _ => {},
    }
}

} // verus!
