//! Where the files of a run lie on disk.
//!
//! ```text
//! <root>/
//!   <album name>/
//!     cover.jpg
//!     <song name>.flac   the finished file
//!     <song name>.wav    raw audio, removed once the finished file is there
//! ```
//!
//! Names are taken as the service sends them: nothing is replaced or escaped.

use vstd::prelude::*;

verus! {

/// `name` below the directory `parent`: the two joined by one `/`, which is
/// left out where `parent` is empty or already ends in one.
pub open spec fn joined_path(parent: Seq<char>, name: Seq<char>) -> Seq<char> {
    if parent.len() == 0 || parent.last() == '/' {
        parent + name
    } else {
        parent + seq!['/'] + name
    }
}

/// The directory of the album called `album` below `root`.
pub open spec fn album_dir_of(root: Seq<char>, album: Seq<char>) -> Seq<char> {
    joined_path(root, album)
}

/// The cover image of the album whose directory is `dir`.
pub open spec fn cover_path_of(dir: Seq<char>) -> Seq<char> {
    joined_path(dir, "cover.jpg"@)
}

/// The raw audio of the song called `song` in the directory `dir`.
pub open spec fn raw_path_of(dir: Seq<char>, song: Seq<char>) -> Seq<char> {
    joined_path(dir, song + ".wav"@)
}

/// The finished file of the song called `song` in the directory `dir`.
pub open spec fn final_path_of(dir: Seq<char>, song: Seq<char>) -> Seq<char> {
    joined_path(dir, song + ".flac"@)
}

/// Joins a directory and a name.
pub fn join_path(parent: &str, name: &str) -> (p: String)
    ensures
        p@ == joined_path(parent@, name@),
{
    let n: usize = parent.unicode_len();
    let mut p = String::from_str(parent);
    if n > 0 && parent.get_char(n - 1) != '/' {
        proof {
            reveal_strlit("/");
        }
        p.append("/");
    }
    p.append(name);
    p
}

/// The directory of an album below the root of the run.
pub fn album_dir(root: &str, album: &str) -> (p: String)
    ensures
        p@ == album_dir_of(root@, album@),
{
    join_path(root, album)
}

/// The cover image of an album, in the album's directory.
pub fn cover_path(dir: &str) -> (p: String)
    ensures
        p@ == cover_path_of(dir@),
{
    join_path(dir, "cover.jpg")
}

/// The raw audio of a song, beside its finished file.
pub fn raw_path(dir: &str, song: &str) -> (p: String)
    ensures
        p@ == raw_path_of(dir@, song@),
{
    let file = String::from_str(song).concat(".wav");
    join_path(dir, file.as_str())
}

/// The finished file of a song.
pub fn final_path(dir: &str, song: &str) -> (p: String)
    ensures
        p@ == final_path_of(dir@, song@),
{
    let file = String::from_str(song).concat(".flac");
    join_path(dir, file.as_str())
}

/// A song's finished file lies in its album's directory below the root, under
/// the song's name with `.flac` behind it.
pub proof fn law_song_lies_under_root(root: Seq<char>, album: Seq<char>, song: Seq<char>)
    requires
        root.len() > 0,
        root.last() != '/',
        album.len() > 0,
        album.last() != '/',
    ensures
        final_path_of(album_dir_of(root, album), song) == root + seq!['/'] + album + seq!['/']
            + song + ".flac"@,
        raw_path_of(album_dir_of(root, album), song) == root + seq!['/'] + album + seq!['/']
            + song + ".wav"@,
        cover_path_of(album_dir_of(root, album)) == root + seq!['/'] + album + seq!['/']
            + "cover.jpg"@,
{
}

/// Raw audio, finished files and covers never share a path, whatever the
/// directories and the songs are called: they end differently.
pub proof fn lemma_paths_differ(
    raw_dir: Seq<char>,
    raw_song: Seq<char>,
    final_dir: Seq<char>,
    final_song: Seq<char>,
    cover_dir: Seq<char>,
)
    ensures
        raw_path_of(raw_dir, raw_song) != final_path_of(final_dir, final_song),
        raw_path_of(raw_dir, raw_song) != cover_path_of(cover_dir),
        final_path_of(final_dir, final_song) != cover_path_of(cover_dir),
{
    reveal_strlit(".wav");
    reveal_strlit(".flac");
    reveal_strlit("cover.jpg");
    assert(raw_path_of(raw_dir, raw_song).last() == 'v');
    assert(final_path_of(final_dir, final_song).last() == 'c');
    assert(cover_path_of(cover_dir).last() == 'g');
}

/// A file in a directory is not the directory.
pub proof fn lemma_file_is_not_its_directory(dir: Seq<char>, song: Seq<char>)
    ensures
        raw_path_of(dir, song) != dir,
        final_path_of(dir, song) != dir,
        cover_path_of(dir) != dir,
{
    reveal_strlit(".wav");
    reveal_strlit(".flac");
    reveal_strlit("cover.jpg");
}

} // verus!
