//! Resolving the whole catalog.
//!
//! The list of albums is fetched once, and the albums are resolved one after
//! the other in the order of the list. The first album that fails ends the
//! run.

use crate::album::{album_next, album_start, get_album, AlbumRun, AlbumRunView};
use crate::catalog_laws::lemma_catalog_step;
use crate::endpoints::{catalog_url, catalog_url_of};
use crate::error::ErrorKind;
use crate::records::{album_summaries, AlbumSummary, AlbumSummaryView};
use crate::steps::{Action, ActionView, Event, EventView};
use crate::text::{id_of, parse_id};
use vstd::prelude::*;

verus! {

/// How far the work on the catalog has come.
#[derive(Clone, Debug, PartialEq, Eq)]
pub enum CatalogStage {
    /// The list of albums was asked for.
    FetchingCatalog,
    /// The album at `index` is being resolved; those before it are done.
    InAlbum { albums: Vec<AlbumSummary>, index: usize, album: AlbumRun },
    /// Every album is done.
    Done,
    /// The run was given up.
    Failed { kind: ErrorKind },
}

/// The view of [`CatalogStage`].
pub enum CatalogStageView {
    FetchingCatalog,
    InAlbum { albums: Seq<AlbumSummaryView>, index: nat, album: AlbumRunView },
    Done,
    Failed { kind: ErrorKind },
}

impl View for CatalogStage {
    type V = CatalogStageView;

    open spec fn view(&self) -> CatalogStageView {
        match *self {
            CatalogStage::FetchingCatalog => CatalogStageView::FetchingCatalog,
            CatalogStage::InAlbum { albums, index, album } => CatalogStageView::InAlbum {
                albums: album_summaries(albums@),
                index: index as nat,
                album: album@,
            },
            CatalogStage::Done => CatalogStageView::Done,
            CatalogStage::Failed { kind } => CatalogStageView::Failed { kind },
        }
    }
}

/// The work on the catalog: the directory below which the albums go, and the
/// stage reached.
#[derive(Clone, Debug, PartialEq, Eq)]
pub struct CatalogRun {
    pub parent: String,
    pub stage: CatalogStage,
}

/// The view of [`CatalogRun`].
pub struct CatalogRunView {
    pub parent: Seq<char>,
    pub stage: CatalogStageView,
}

impl View for CatalogRun {
    type V = CatalogRunView;

    open spec fn view(&self) -> CatalogRunView {
        CatalogRunView { parent: self.parent@, stage: self.stage@ }
    }
}

impl CatalogRunView {
    /// The run has ended.
    pub open spec fn ended(self) -> bool {
        self.stage is Done || self.stage is Failed
    }

    /// The run is in order: the album at work, if there is one, is in order
    /// and has not itself ended. A run is in order at its start and after
    /// every step.
    pub open spec fn orderly(self) -> bool {
        self.stage matches CatalogStageView::InAlbum { albums, index, album } ==> album.orderly()
            && !album.ended()
    }
}

/// The stage and the action of a catalog run that is given up.
pub open spec fn catalog_halted(kind: ErrorKind) -> (CatalogStageView, ActionView) {
    (CatalogStageView::Failed { kind }, ActionView::Abort { kind })
}

/// The catalog run as it turns to the album at `index`: done where the list
/// has no such album, else the beginning of that album below `parent`.
pub open spec fn album_at(parent: Seq<char>, albums: Seq<AlbumSummaryView>, index: nat) -> (
    CatalogStageView,
    ActionView,
) {
    if index >= albums.len() {
        (CatalogStageView::Done, ActionView::Finished)
    } else {
        match id_of(albums[index as int].cid) {
            Some(id) => {
                let (album, action) = album_start(parent, id);
                (CatalogStageView::InAlbum { albums, index, album }, action)
            },
            None => catalog_halted(ErrorKind::Decode),
        }
    }
}

/// The stage after `event`, and the next action, of a catalog run below
/// `parent`. While an album is being resolved, the album's run decides; when
/// it is finished the next album begins, and when it is given up so is the
/// whole run.
pub open spec fn catalog_advanced(
    parent: Seq<char>,
    stage: CatalogStageView,
    event: EventView,
) -> (CatalogStageView, ActionView) {
    match stage {
        CatalogStageView::FetchingCatalog => match event {
            EventView::Catalog(root) => album_at(parent, root.data, 0),
            _ => catalog_halted(event.refusal()),
        },
        CatalogStageView::InAlbum { albums, index, album } => {
            let (album, action) = album_next(album, event);
            match action {
                ActionView::Finished => album_at(parent, albums, index + 1),
                ActionView::Abort { kind } => catalog_halted(kind),
                _ => (CatalogStageView::InAlbum { albums, index, album }, action),
            }
        },
        CatalogStageView::Done => (stage, ActionView::Finished),
        CatalogStageView::Failed { kind } => (stage, ActionView::Abort { kind }),
    }
}

/// The beginning of the work on the catalog, to be placed below `parent`.
pub open spec fn catalog_start(parent: Seq<char>) -> (CatalogRunView, ActionView) {
    (
        CatalogRunView { parent, stage: CatalogStageView::FetchingCatalog },
        ActionView::FetchCatalog { url: catalog_url_of() },
    )
}

/// The run after `event`, and the next action.
pub open spec fn catalog_next(s: CatalogRunView, event: EventView) -> (
    CatalogRunView,
    ActionView,
) {
    let (stage, action) = catalog_advanced(s.parent, s.stage, event);
    (CatalogRunView { stage, ..s }, action)
}

fn halt(kind: ErrorKind) -> (r: (CatalogStage, Action))
    ensures
        (r.0@, r.1@) == catalog_halted(kind),
{
    (CatalogStage::Failed { kind }, Action::Abort { kind })
}

fn begin_album(parent: &str, albums: Vec<AlbumSummary>, index: usize) -> (r: (
    CatalogStage,
    Action,
))
    ensures
        (r.0@, r.1@) == album_at(parent@, album_summaries(albums@), index as nat),
{
    if index >= albums.len() {
        (CatalogStage::Done, Action::Finished)
    } else {
        match parse_id(albums[index].cid.as_str()) {
            Some(id) => {
                let (album, action) = get_album(String::from_str(parent), id);
                (CatalogStage::InAlbum { albums, index, album }, action)
            },
            None => halt(ErrorKind::Decode),
        }
    }
}

fn advance(parent: &str, stage: CatalogStage, event: Event) -> (r: (CatalogStage, Action))
    ensures
        (r.0@, r.1@) == catalog_advanced(parent@, stage@, event@),
{
    match stage {
        CatalogStage::FetchingCatalog => match event {
            Event::Catalog(root) => begin_album(parent, root.data, 0),
            other => halt(other.refusal()),
        },
        CatalogStage::InAlbum { albums, index, album } => {
            let (album, action) = album.step(event);
            match action {
                Action::Finished => {
                    // An index that cannot grow is past the last album.
                    match index.checked_add(1) {
                        Some(next) => begin_album(parent, albums, next),
                        None => (CatalogStage::Done, Action::Finished),
                    }
                },
                Action::Abort { kind } => halt(kind),
                other => (CatalogStage::InAlbum { albums, index, album }, other),
            }
        },
        CatalogStage::Done => (CatalogStage::Done, Action::Finished),
        CatalogStage::Failed { kind } => (CatalogStage::Failed { kind }, Action::Abort { kind }),
    }
}

/// Begins the work on every album of the catalog, to be placed below
/// `parent_path`.
pub fn get_all_albums(parent_path: String) -> (r: (CatalogRun, Action))
    ensures
        (r.0@, r.1@) == catalog_start(parent_path@),
        r.0@.orderly(),
{
    (
        CatalogRun { parent: parent_path, stage: CatalogStage::FetchingCatalog },
        Action::FetchCatalog { url: catalog_url() },
    )
}

impl CatalogRun {
    /// Takes the driver's answer to the last action and says what to do next.
    pub fn step(self, event: Event) -> (r: (CatalogRun, Action))
        ensures
            (r.0@, r.1@) == catalog_next(self@, event@),
            self@.orderly() ==> r.0@.orderly(),
    {
        proof {
            if self@.orderly() {
                lemma_catalog_step(self@, event@);
            }
        }
        let CatalogRun { parent, stage } = self;
        let (stage, action) = advance(parent.as_str(), stage, event);
        (CatalogRun { parent, stage }, action)
    }
}

} // verus!
