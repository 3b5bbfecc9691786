//! What holds of every run on the catalog, whatever the driver reports.

use crate::album_laws::lemma_album_step;
use crate::catalog::{catalog_next, catalog_start, CatalogRunView};
use crate::endpoints::{album_url_of, catalog_url_of};
use crate::records::{AlbumSummaryView, CatalogRootView};
use crate::steps::{ActionView, EventView};
use crate::text::id_of;
use vstd::prelude::*;

verus! {

/// One step keeps a run on the catalog in order.
pub proof fn lemma_catalog_step(s: CatalogRunView, event: EventView)
    requires
        s.orderly(),
    ensures
        catalog_next(s, event).0.orderly(),
{
    if s.stage is InAlbum {
        lemma_album_step(s.stage->InAlbum_album, event);
    }
}

/// The addresses at which the run, in answer to `events`, asks for albums,
/// in the order in which it asks.
pub open spec fn albums_asked(s: CatalogRunView, events: Seq<EventView>) -> Seq<Seq<char>>
    decreases events.len(),
{
    if events.len() == 0 {
        Seq::empty()
    } else {
        let (next, action) = catalog_next(s, events[0]);
        let rest = albums_asked(next, events.skip(1));
        match action {
            ActionView::FetchAlbum { url } => seq![url] + rest,
            _ => rest,
        }
    }
}

/// The run after `events`.
pub open spec fn catalog_after(s: CatalogRunView, events: Seq<EventView>) -> CatalogRunView
    decreases events.len(),
{
    if events.len() == 0 {
        s
    } else {
        catalog_after(catalog_next(s, events[0]).0, events.skip(1))
    }
}

/// The address at which the album at `index` of the list is asked for, where
/// its identifier can be read.
pub open spec fn album_request(albums: Seq<AlbumSummaryView>, index: int) -> Option<Seq<char>> {
    match id_of(albums[index].cid) {
        Some(id) => Some(album_url_of(id)),
        None => None,
    }
}

/// A run that has ended asks for nothing.
pub proof fn lemma_ended_catalog_asks_nothing(s: CatalogRunView, events: Seq<EventView>)
    requires
        s.ended(),
    ensures
        albums_asked(s, events).len() == 0,
        catalog_after(s, events) == s,
    decreases events.len(),
{
    if events.len() > 0 {
        lemma_ended_catalog_asks_nothing(catalog_next(s, events[0]).0, events.skip(1));
    }
}

/// From the middle of the list on, the albums are asked for one by one in
/// the order of the list, none twice and none left out.
pub proof fn lemma_albums_asked_in_order(s: CatalogRunView, events: Seq<EventView>)
    requires
        s.orderly(),
        s.stage is InAlbum,
    ensures
        ({
            let albums = s.stage->InAlbum_albums;
            let ahead = s.stage->InAlbum_index as int + 1;
            let asked = albums_asked(s, events);
            &&& ahead + asked.len() <= albums.len() || asked.len() == 0
            &&& forall|i: int|
                0 <= i < asked.len() ==> album_request(albums, ahead + i) == Some(
                    #[trigger] asked[i],
                )
            &&& catalog_after(s, events).stage is Done ==> ahead + asked.len() >= albums.len()
        }),
    decreases events.len(),
{
    if events.len() > 0 {
        let album = s.stage->InAlbum_album;
        let next = catalog_next(s, events[0]).0;
        lemma_album_step(album, events[0]);
        if next.stage is InAlbum {
            lemma_albums_asked_in_order(next, events.skip(1));
        } else {
            lemma_ended_catalog_asks_nothing(next, events.skip(1));
        }
    }
}

/// The albums are resolved in the order of the catalog.
///
/// Take any run on the catalog, from its start, the list of albums that it
/// is answered with, and any events after that. The albums that the run asks
/// for are the albums of the list from its beginning, each once and in the
/// order of the list. If the run ends complete, it has asked for all of them.
pub proof fn law_albums_in_catalog_order(
    parent: Seq<char>,
    root: CatalogRootView,
    events: Seq<EventView>,
)
    ensures
        ({
            let (start, first) = catalog_start(parent);
            let all = seq![EventView::Catalog(root)] + events;
            let asked = albums_asked(start, all);
            &&& first == ActionView::FetchCatalog { url: catalog_url_of() }
            &&& asked.len() <= root.data.len()
            &&& forall|i: int|
                0 <= i < asked.len() ==> album_request(root.data, i) == Some(#[trigger] asked[i])
            &&& catalog_after(start, all).stage is Done ==> asked.len() == root.data.len()
        }),
{
    let start = catalog_start(parent).0;
    let all = seq![EventView::Catalog(root)] + events;
    let next = catalog_next(start, all[0]).0;
    assert(all.skip(1) =~= events);
    if next.stage is InAlbum {
        lemma_albums_asked_in_order(next, events);
    } else {
        lemma_ended_catalog_asks_nothing(next, events);
    }
}

} // verus!
