//! What holds of every run on one album, whatever the driver reports.

use crate::album::{album_next, album_start, AlbumRunView, AlbumStageView};
use crate::endpoints::song_url_of;
use crate::records::{AlbumDataView, AlbumDetailView, SongSummaryView};
use crate::text::id_of;
use crate::song_laws::{downloads_cover, lemma_song_downloads_no_cover, lemma_song_with_album};
use crate::steps::{ActionView, EventView};
use vstd::prelude::*;

verus! {

/// The actions that a run hands out in answer to `events`, one for each.
pub open spec fn album_actions(s: AlbumRunView, events: Seq<EventView>) -> Seq<ActionView>
    decreases events.len(),
{
    if events.len() == 0 {
        Seq::empty()
    } else {
        let (next, action) = album_next(s, events[0]);
        seq![action] + album_actions(next, events.skip(1))
    }
}

/// How often the run, in answer to `events`, downloads the cover of `dir`.
pub open spec fn cover_downloads(s: AlbumRunView, events: Seq<EventView>, dir: Seq<char>) -> nat
    decreases events.len(),
{
    if events.len() == 0 {
        0
    } else {
        let (next, action) = album_next(s, events[0]);
        let rest = cover_downloads(next, events.skip(1), dir);
        if downloads_cover(action, dir) {
            1 + rest
        } else {
            rest
        }
    }
}

/// How many downloads of a cover a run at `stage` may still ask for: one
/// until the cover was probed, none from then on.
pub open spec fn covers_ahead(stage: AlbumStageView) -> nat {
    match stage {
        AlbumStageView::FetchingAlbum => 1,
        AlbumStageView::CreatingDir { album } => 1,
        AlbumStageView::ProbingCover { album } => 1,
        _ => 0,
    }
}

/// One step keeps a run on an album in order, and asks for no album and for
/// no catalog.
pub proof fn lemma_album_step(s: AlbumRunView, event: EventView)
    requires
        s.orderly(),
    ensures
        album_next(s, event).0.orderly(),
        !(album_next(s, event).1 is FetchAlbum),
        !(album_next(s, event).1 is FetchCatalog),
{
    match s.stage {
        AlbumStageView::InSong { album, index, song } => {
            lemma_song_with_album(song, event);
        },
        _ => {},
    }
}

/// A download of a cover uses up the one that the stage had ahead.
pub proof fn lemma_album_cover_step(s: AlbumRunView, event: EventView, dir: Seq<char>)
    requires
        s.orderly(),
    ensures
        downloads_cover(album_next(s, event).1, dir) ==> covers_ahead(s.stage) == 1,
        downloads_cover(album_next(s, event).1, dir) ==> covers_ahead(album_next(s, event).0.stage)
            == 0,
        covers_ahead(album_next(s, event).0.stage) <= covers_ahead(s.stage),
{
    match s.stage {
        AlbumStageView::InSong { album, index, song } => {
            lemma_song_downloads_no_cover(song, event, dir);
        },
        _ => {},
    }
}

/// A run downloads no more covers than its stage has ahead.
pub proof fn lemma_cover_downloads_bounded(
    s: AlbumRunView,
    events: Seq<EventView>,
    dir: Seq<char>,
)
    requires
        s.orderly(),
    ensures
        cover_downloads(s, events, dir) <= covers_ahead(s.stage),
    decreases events.len(),
{
    if events.len() > 0 {
        lemma_album_step(s, events[0]);
        lemma_album_cover_step(s, events[0], dir);
        lemma_cover_downloads_bounded(album_next(s, events[0]).0, events.skip(1), dir);
    }
}

/// The cover of an album is downloaded at most once.
///
/// Take any run on an album, from its start, and any events. Whatever the
/// directory, at most one of the run's actions downloads a cover into it,
/// however many songs the album has: the songs are handed the album and
/// bring in nothing but their own audio.
pub proof fn law_cover_is_downloaded_once(
    parent: Seq<char>,
    id: u64,
    events: Seq<EventView>,
    dir: Seq<char>,
)
    ensures
        !downloads_cover(album_start(parent, id).1, dir),
        cover_downloads(album_start(parent, id).0, events, dir) <= 1,
{
    lemma_cover_downloads_bounded(album_start(parent, id).0, events, dir);
}

/// A run in order answers each event with one action, and with none of them
/// does it ask for an album or for the catalog.
pub proof fn lemma_album_asks_for_no_album(s: AlbumRunView, events: Seq<EventView>, i: int)
    requires
        s.orderly(),
        0 <= i < events.len(),
    ensures
        album_actions(s, events).len() == events.len(),
        !(album_actions(s, events)[i] is FetchAlbum),
        !(album_actions(s, events)[i] is FetchCatalog),
    decreases events.len(),
{
    lemma_album_step(s, events[0]);
    if events.len() > 1 {
        let j = if i > 0 {
            i - 1
        } else {
            0
        };
        lemma_album_asks_for_no_album(album_next(s, events[0]).0, events.skip(1), j);
    }
}

/// An album is asked for once.
///
/// A run on an album begins by asking for the album. Whatever is reported
/// after that, and however many songs the album has, the run does not ask
/// for an album again: each song is handed the album that was fetched.
pub proof fn law_album_is_asked_for_once(
    parent: Seq<char>,
    id: u64,
    events: Seq<EventView>,
    i: int,
)
    requires
        0 <= i < events.len(),
    ensures
        album_start(parent, id).1 is FetchAlbum,
        album_actions(album_start(parent, id).0, events).len() == events.len(),
        !(album_actions(album_start(parent, id).0, events)[i] is FetchAlbum),
{
    lemma_album_asks_for_no_album(album_start(parent, id).0, events, i);
}

/// The addresses at which the run, in answer to `events`, asks for songs, in
/// the order in which it asks.
pub open spec fn songs_asked(s: AlbumRunView, events: Seq<EventView>) -> Seq<Seq<char>>
    decreases events.len(),
{
    if events.len() == 0 {
        Seq::empty()
    } else {
        let (next, action) = album_next(s, events[0]);
        let rest = songs_asked(next, events.skip(1));
        match action {
            ActionView::FetchSong { url } => seq![url] + rest,
            _ => rest,
        }
    }
}

/// The run after `events`.
pub open spec fn album_after(s: AlbumRunView, events: Seq<EventView>) -> AlbumRunView
    decreases events.len(),
{
    if events.len() == 0 {
        s
    } else {
        album_after(album_next(s, events[0]).0, events.skip(1))
    }
}

/// The address at which the song at `index` of the album is asked for, where
/// its identifier can be read.
pub open spec fn song_request(songs: Seq<SongSummaryView>, index: int) -> Option<Seq<char>> {
    match id_of(songs[index].cid) {
        Some(id) => Some(song_url_of(id)),
        None => None,
    }
}

/// The album whose songs a run is resolving or about to resolve.
pub open spec fn album_of(stage: AlbumStageView) -> Option<AlbumDataView> {
    match stage {
        AlbumStageView::CreatingDir { album } => Some(album),
        AlbumStageView::ProbingCover { album } => Some(album),
        AlbumStageView::DownloadingCover { album } => Some(album),
        AlbumStageView::InSong { album, index, song } => Some(album),
        _ => None,
    }
}

/// The place in the album of the next song that a run will ask for.
pub open spec fn songs_begun(stage: AlbumStageView) -> int {
    match stage {
        AlbumStageView::InSong { album, index, song } => index as int + 1,
        _ => 0,
    }
}

/// A run that has ended asks for nothing.
pub proof fn lemma_ended_album_asks_nothing(s: AlbumRunView, events: Seq<EventView>)
    requires
        s.ended(),
    ensures
        songs_asked(s, events).len() == 0,
        album_after(s, events) == s,
    decreases events.len(),
{
    if events.len() > 0 {
        lemma_ended_album_asks_nothing(album_next(s, events[0]).0, events.skip(1));
    }
}

/// From the middle of an album on, the songs are asked for one by one in
/// album order, none twice and none left out.
pub proof fn lemma_songs_asked_in_order(s: AlbumRunView, events: Seq<EventView>)
    requires
        s.orderly(),
        album_of(s.stage) is Some,
    ensures
        ({
            let songs = album_of(s.stage)->0.songs;
            let ahead = songs_begun(s.stage);
            let asked = songs_asked(s, events);
            &&& ahead + asked.len() <= songs.len() || asked.len() == 0
            &&& forall|i: int|
                0 <= i < asked.len() ==> song_request(songs, ahead + i) == Some(
                    #[trigger] asked[i],
                )
            &&& album_after(s, events).stage is Done ==> ahead + asked.len() >= songs.len()
        }),
    decreases events.len(),
{
    if events.len() > 0 {
        let next = album_next(s, events[0]).0;
        lemma_album_step(s, events[0]);
        if album_of(next.stage) is Some {
            lemma_songs_asked_in_order(next, events.skip(1));
        } else {
            lemma_ended_album_asks_nothing(next, events.skip(1));
        }
    }
}

/// The songs of an album are resolved in album order.
///
/// Take any run on an album, from its start, the album that it is answered
/// with, and any events after that. The songs that the run asks for are the
/// songs of the album from its first, each once and in album order. If the
/// run ends complete, it has asked for all of them.
pub proof fn law_songs_in_album_order(
    parent: Seq<char>,
    id: u64,
    detail: AlbumDetailView,
    events: Seq<EventView>,
)
    ensures
        ({
            let (start, first) = album_start(parent, id);
            let all = seq![EventView::Album(detail)] + events;
            let asked = songs_asked(start, all);
            &&& asked.len() <= detail.data.songs.len()
            &&& forall|i: int|
                0 <= i < asked.len() ==> song_request(detail.data.songs, i) == Some(
                    #[trigger] asked[i],
                )
            &&& album_after(start, all).stage is Done ==> asked.len() == detail.data.songs.len()
        }),
{
    let start = album_start(parent, id).0;
    let all = seq![EventView::Album(detail)] + events;
    assert(all.skip(1) =~= events);
    lemma_songs_asked_in_order(album_next(start, all[0]).0, events);
}

} // verus!
