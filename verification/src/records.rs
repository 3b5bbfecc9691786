//! The records that the catalog service hands out, and their views.
//!
//! A record is a snapshot of remote state. Identifiers are kept as the text
//! that the service sent; [`crate::text::parse_id`] reads them.

use crate::text::texts;
use vstd::prelude::*;

verus! {

/// One album as the catalog lists it.
#[derive(Clone, Debug, PartialEq, Eq)]
pub struct AlbumSummary {
    pub cid: String,
    pub name: String,
    pub cover_url: String,
    pub artists: Vec<String>,
}

/// The view of [`AlbumSummary`].
pub struct AlbumSummaryView {
    pub cid: Seq<char>,
    pub name: Seq<char>,
    pub cover_url: Seq<char>,
    pub artists: Seq<Seq<char>>,
}

impl View for AlbumSummary {
    type V = AlbumSummaryView;

    open spec fn view(&self) -> AlbumSummaryView {
        AlbumSummaryView {
            cid: self.cid@,
            name: self.name@,
            cover_url: self.cover_url@,
            artists: texts(self.artists@),
        }
    }
}

/// The whole catalog: its albums in the order of the reply.
#[derive(Clone, Debug, PartialEq, Eq)]
pub struct CatalogRoot {
    pub code: u8,
    pub msg: String,
    pub data: Vec<AlbumSummary>,
}

/// The view of [`CatalogRoot`].
pub struct CatalogRootView {
    pub code: u8,
    pub msg: Seq<char>,
    pub data: Seq<AlbumSummaryView>,
}

/// The views of the albums of `v`, in order.
pub open spec fn album_summaries(v: Seq<AlbumSummary>) -> Seq<AlbumSummaryView> {
    Seq::new(v.len(), |i: int| v[i]@)
}

impl View for CatalogRoot {
    type V = CatalogRootView;

    open spec fn view(&self) -> CatalogRootView {
        CatalogRootView { code: self.code, msg: self.msg@, data: album_summaries(self.data@) }
    }
}

/// One song as an album lists it.
#[derive(Clone, Debug, PartialEq, Eq)]
pub struct SongSummary {
    pub cid: String,
    pub name: String,
    pub artists: Vec<String>,
}

/// The view of [`SongSummary`].
pub struct SongSummaryView {
    pub cid: Seq<char>,
    pub name: Seq<char>,
    pub artists: Seq<Seq<char>>,
}

impl View for SongSummary {
    type V = SongSummaryView;

    open spec fn view(&self) -> SongSummaryView {
        SongSummaryView { cid: self.cid@, name: self.name@, artists: texts(self.artists@) }
    }
}

/// The views of the songs of `v`, in order.
pub open spec fn song_summaries(v: Seq<SongSummary>) -> Seq<SongSummaryView> {
    Seq::new(v.len(), |i: int| v[i]@)
}

/// An album in full: its texts, its images and its songs in album order.
#[derive(Clone, Debug, PartialEq, Eq)]
pub struct AlbumData {
    pub cid: String,
    pub name: String,
    pub intro: String,
    pub belong: String,
    pub cover_url: String,
    pub cover_de_url: String,
    pub songs: Vec<SongSummary>,
}

/// The view of [`AlbumData`].
pub struct AlbumDataView {
    pub cid: Seq<char>,
    pub name: Seq<char>,
    pub intro: Seq<char>,
    pub belong: Seq<char>,
    pub cover_url: Seq<char>,
    pub cover_de_url: Seq<char>,
    pub songs: Seq<SongSummaryView>,
}

impl View for AlbumData {
    type V = AlbumDataView;

    open spec fn view(&self) -> AlbumDataView {
        AlbumDataView {
            cid: self.cid@,
            name: self.name@,
            intro: self.intro@,
            belong: self.belong@,
            cover_url: self.cover_url@,
            cover_de_url: self.cover_de_url@,
            songs: song_summaries(self.songs@),
        }
    }
}

/// The reply to a request for one album.
#[derive(Clone, Debug, PartialEq, Eq)]
pub struct AlbumDetail {
    pub code: u8,
    pub msg: String,
    pub data: AlbumData,
}

/// The view of [`AlbumDetail`].
pub struct AlbumDetailView {
    pub code: u8,
    pub msg: Seq<char>,
    pub data: AlbumDataView,
}

impl View for AlbumDetail {
    type V = AlbumDetailView;

    open spec fn view(&self) -> AlbumDetailView {
        AlbumDetailView { code: self.code, msg: self.msg@, data: self.data@ }
    }
}

/// A song in full. The three optional addresses may be missing.
#[derive(Clone, Debug, PartialEq, Eq)]
pub struct SongData {
    pub cid: String,
    pub name: String,
    pub album_cid: String,
    pub source_url: String,
    pub lyric_url: Option<String>,
    pub mv_url: Option<String>,
    pub mv_cover_url: Option<String>,
    pub artists: Vec<String>,
}

/// The view of [`SongData`].
pub struct SongDataView {
    pub cid: Seq<char>,
    pub name: Seq<char>,
    pub album_cid: Seq<char>,
    pub source_url: Seq<char>,
    pub lyric_url: Option<Seq<char>>,
    pub mv_url: Option<Seq<char>>,
    pub mv_cover_url: Option<Seq<char>>,
    pub artists: Seq<Seq<char>>,
}

/// The view of an optional string.
pub open spec fn optional_text(s: Option<String>) -> Option<Seq<char>> {
    match s {
        Some(t) => Some(t@),
        None => None,
    }
}

impl View for SongData {
    type V = SongDataView;

    open spec fn view(&self) -> SongDataView {
        SongDataView {
            cid: self.cid@,
            name: self.name@,
            album_cid: self.album_cid@,
            source_url: self.source_url@,
            lyric_url: optional_text(self.lyric_url),
            mv_url: optional_text(self.mv_url),
            mv_cover_url: optional_text(self.mv_cover_url),
            artists: texts(self.artists@),
        }
    }
}

/// The reply to a request for one song.
#[derive(Clone, Debug, PartialEq, Eq)]
pub struct SongDetail {
    pub code: u8,
    pub msg: String,
    pub data: SongData,
}

/// The view of [`SongDetail`].
pub struct SongDetailView {
    pub code: u8,
    pub msg: Seq<char>,
    pub data: SongDataView,
}

impl View for SongDetail {
    type V = SongDetailView;

    open spec fn view(&self) -> SongDetailView {
        SongDetailView { code: self.code, msg: self.msg@, data: self.data@ }
    }
}

/// What a song's tags take from its album: the identifier and the name.
#[derive(Clone, Debug, PartialEq, Eq)]
pub struct AlbumContext {
    pub cid: String,
    pub name: String,
}

/// The view of [`AlbumContext`].
pub struct AlbumContextView {
    pub cid: Seq<char>,
    pub name: Seq<char>,
}

impl View for AlbumContext {
    type V = AlbumContextView;

    open spec fn view(&self) -> AlbumContextView {
        AlbumContextView { cid: self.cid@, name: self.name@ }
    }
}

impl AlbumDataView {
    /// The part of the album that the tags of its songs take.
    pub open spec fn context(self) -> AlbumContextView {
        AlbumContextView { cid: self.cid, name: self.name }
    }
}

impl AlbumData {
    /// The part of the album that the tags of its songs take.
    pub fn context(&self) -> (c: AlbumContext)
        ensures
            c@ == self@.context(),
    {
        AlbumContext { cid: self.cid.clone(), name: self.name.clone() }
    }
}

} // verus!
