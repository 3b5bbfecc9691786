//! The addresses of the catalog service.
//!
//! Each request is one `GET` whose address depends on nothing but the
//! identifier asked for.

use crate::text::{decimal, render_decimal};
use vstd::prelude::*;

verus! {

/// The address below which the service answers.
pub open spec fn base() -> Seq<char> {
    "https://monster-siren.hypergryph.com/api"@
}

/// The address of the list of all albums.
pub open spec fn catalog_url_of() -> Seq<char> {
    base() + "/albums"@
}

/// The address of the album `id` in full.
pub open spec fn album_url_of(id: u64) -> Seq<char> {
    base() + "/album/"@ + decimal(id as nat) + "/detail"@
}

/// The address of the song `id` in full.
pub open spec fn song_url_of(id: u64) -> Seq<char> {
    base() + "/song/"@ + decimal(id as nat)
}

/// The address to ask for the list of all albums.
pub fn catalog_url() -> (url: String)
    ensures
        url@ == catalog_url_of(),
{
    String::from_str("https://monster-siren.hypergryph.com/api").concat("/albums")
}

/// The address to ask for one album.
pub fn album_url(album_id: u64) -> (url: String)
    ensures
        url@ == album_url_of(album_id),
{
    let id = render_decimal(album_id);
    String::from_str("https://monster-siren.hypergryph.com/api").concat("/album/").concat(
        id.as_str(),
    ).concat("/detail")
}

/// The address to ask for one song.
pub fn song_url(song_id: u64) -> (url: String)
    ensures
        url@ == song_url_of(song_id),
{
    let id = render_decimal(song_id);
    String::from_str("https://monster-siren.hypergryph.com/api").concat("/song/").concat(
        id.as_str(),
    )
}

} // verus!
