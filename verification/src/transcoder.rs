//! The audio assembler: what the transcoder is asked to do for one song.
//!
//! One run of the transcoder takes the raw audio and the cover image and
//! writes the finished file, with the cover attached to it and five text
//! fields set. This module builds the command; starting it and waiting for it
//! is left to the driver.

use crate::records::{AlbumContext, AlbumContextView, AlbumData, SongData, SongDataView};
use crate::error::ErrorKind;
use crate::text::{contains_nul, has_nul, join, joined, lemma_nul_in_concat, texts};
use ffmpeg_sidecar::command::FfmpegCommand;
use vstd::prelude::*;

verus! {

/// The text fields written into a finished file.
#[derive(Clone, Debug, PartialEq, Eq)]
pub struct Tags {
    pub title: String,
    pub album: String,
    pub lyrics: String,
    pub artist: String,
    pub comment: String,
}

/// The view of [`Tags`].
pub struct TagsView {
    pub title: Seq<char>,
    pub album: Seq<char>,
    pub lyrics: Seq<char>,
    pub artist: Seq<char>,
    pub comment: Seq<char>,
}

impl View for Tags {
    type V = TagsView;

    open spec fn view(&self) -> TagsView {
        TagsView {
            title: self.title@,
            album: self.album@,
            lyrics: self.lyrics@,
            artist: self.artist@,
            comment: self.comment@,
        }
    }
}

/// One piece of work for the transcoder.
#[derive(Clone, Debug, PartialEq, Eq)]
pub struct TranscodeJob {
    /// The raw audio to read.
    pub input: String,
    /// The cover image to attach.
    pub cover: String,
    /// The finished file to write.
    pub output: String,
    pub tags: Tags,
}

/// The view of [`TranscodeJob`].
pub struct TranscodeJobView {
    pub input: Seq<char>,
    pub cover: Seq<char>,
    pub output: Seq<char>,
    pub tags: TagsView,
}

impl View for TranscodeJob {
    type V = TranscodeJobView;

    open spec fn view(&self) -> TranscodeJobView {
        TranscodeJobView {
            input: self.input@,
            cover: self.cover@,
            output: self.output@,
            tags: self.tags@,
        }
    }
}

/// The tags of `song` on `album`: the song's name as title, the album's name,
/// the address of the lyrics or nothing where the song has none, the artists
/// with commas between them, and both identifiers in the comment.
pub open spec fn tags_of(album: AlbumContextView, song: SongDataView) -> TagsView {
    TagsView {
        title: song.name,
        album: album.name,
        lyrics: match song.lyric_url {
            Some(url) => url,
            None => Seq::empty(),
        },
        artist: joined(song.artists, ","@),
        comment: "albumCid "@ + album.cid + ", cid "@ + song.cid,
    }
}

/// The job that reads `input` and `cover` and writes `output`, tagged for
/// `song` on `album`.
pub open spec fn job_of(
    input: Seq<char>,
    cover: Seq<char>,
    output: Seq<char>,
    album: AlbumContextView,
    song: SongDataView,
) -> TranscodeJobView {
    TranscodeJobView { input, cover, output, tags: tags_of(album, song) }
}

/// One of the three paths or of the five tags of `job` holds a NUL character.
/// No command can be built for such a job.
pub open spec fn job_has_nul(job: TranscodeJobView) -> bool {
    ||| has_nul(job.input)
    ||| has_nul(job.cover)
    ||| has_nul(job.output)
    ||| has_nul(job.tags.title)
    ||| has_nul(job.tags.album)
    ||| has_nul(job.tags.lyrics)
    ||| has_nul(job.tags.artist)
    ||| has_nul(job.tags.comment)
}

/// The arguments of the transcoder for `job`, in order: the log format that
/// every command starts with, the two inputs, no banner, never overwrite, the
/// five text fields, the image as attached picture, and the output.
pub open spec fn transcode_args(job: TranscodeJobView) -> Seq<Seq<char>> {
    seq![
        "-loglevel"@,
        "level+info"@,
        "-i"@,
        job.input,
        "-i"@,
        job.cover,
        "-hide_banner"@,
        "-n"@,
        "-metadata"@,
        "title="@ + job.tags.title,
        "-metadata"@,
        "album="@ + job.tags.album,
        "-metadata"@,
        "lyrics="@ + job.tags.lyrics,
        "-metadata"@,
        "artist="@ + job.tags.artist,
        "-metadata"@,
        "comment="@ + job.tags.comment,
        "-disposition:v"@,
        "attached_pic"@,
        job.output,
    ]
}

/// `ffmpeg_sidecar::command::FfmpegCommand`, taken as it is: nothing is known
/// of a command but what [`command_args`] says.
#[verifier::external_type_specification]
#[verifier::external_body]
pub struct ExFfmpegCommand(ffmpeg_sidecar::command::FfmpegCommand);

/// The arguments that a command holds for the transcoder, the program not
/// among them, each read as text, in the order in which they were added.
pub uninterp spec fn command_args(cmd: FfmpegCommand) -> Seq<Seq<char>>;

/// `FfmpegCommand::new`. The program that the command will start depends on
/// what is installed; nothing is said of it. The new command already holds
/// the two arguments that set the log format.
#[verifier::external_body]
fn new_command() -> (cmd: FfmpegCommand)
    ensures
        command_args(cmd) == seq!["-loglevel"@, "level+info"@],
{
    FfmpegCommand::new()
}

/// `FfmpegCommand::input`: adds `-i` and the path. The path is kept as it is
/// where it holds no NUL; of a path with a NUL nothing is claimed.
#[verifier::external_body]
fn add_input(cmd: &mut FfmpegCommand, path: &str)
    requires
        !has_nul(path@),
    ensures
        command_args(*final(cmd)) == command_args(*old(cmd)).push("-i"@).push(path@),
{
    cmd.input(path);
}

/// `FfmpegCommand::hide_banner`: adds `-hide_banner`.
#[verifier::external_body]
fn add_hide_banner(cmd: &mut FfmpegCommand)
    ensures
        command_args(*final(cmd)) == command_args(*old(cmd)).push("-hide_banner"@),
{
    cmd.hide_banner();
}

/// `FfmpegCommand::no_overwrite`: adds `-n`.
#[verifier::external_body]
fn add_no_overwrite(cmd: &mut FfmpegCommand)
    ensures
        command_args(*final(cmd)) == command_args(*old(cmd)).push("-n"@),
{
    cmd.no_overwrite();
}

/// `FfmpegCommand::args` with two arguments: adds both, in order. Each is
/// kept as it is where it holds no NUL; of one with a NUL nothing is claimed.
#[verifier::external_body]
fn add_pair(cmd: &mut FfmpegCommand, first: &str, second: &str)
    requires
        !has_nul(first@),
        !has_nul(second@),
    ensures
        command_args(*final(cmd)) == command_args(*old(cmd)).push(first@).push(second@),
{
    cmd.args([first, second]);
}

/// `FfmpegCommand::output`: adds the path. The path is kept as it is where it
/// holds no NUL; of a path with a NUL nothing is claimed.
#[verifier::external_body]
fn add_output(cmd: &mut FfmpegCommand, path: &str)
    requires
        !has_nul(path@),
    ensures
        command_args(*final(cmd)) == command_args(*old(cmd)).push(path@),
{
    cmd.output(path);
}

/// `FfmpegCommand::get_args`: the arguments added so far, in order.
#[verifier::external_body]
fn read_args(cmd: &FfmpegCommand) -> (args: Vec<String>)
    ensures
        texts(args@) == command_args(*cmd),
{
    let mut args = Vec::new();
    for arg in cmd.get_args() {
        args.push(arg.to_string_lossy().into_owned());
    }
    args
}

/// Computes the tags of a song on an album. A song without lyrics gets an
/// empty lyrics tag.
pub fn metadata_tags(album: &AlbumContext, song: &SongData) -> (tags: Tags)
    ensures
        tags@ == tags_of(album@, song@),
        song.lyric_url is None ==> tags.lyrics@.len() == 0,
{
    let lyrics = match &song.lyric_url {
        Some(url) => url.clone(),
        None => String::new(),
    };
    let comment = String::from_str("albumCid ").concat(album.cid.as_str()).concat(", cid ").concat(
        song.cid.as_str(),
    );
    Tags {
        title: song.name.clone(),
        album: album.name.clone(),
        lyrics,
        artist: join(&song.artists, ","),
        comment,
    }
}

impl TranscodeJob {
    /// Says whether one of the paths or tags of the job holds a NUL character.
    pub fn has_nul(&self) -> (found: bool)
        ensures
            found == job_has_nul(self@),
    {
        contains_nul(self.input.as_str()) || contains_nul(self.cover.as_str()) || contains_nul(
            self.output.as_str(),
        ) || contains_nul(self.tags.title.as_str()) || contains_nul(self.tags.album.as_str())
            || contains_nul(self.tags.lyrics.as_str()) || contains_nul(self.tags.artist.as_str())
            || contains_nul(self.tags.comment.as_str())
    }
}

/// A field name and `=` before a text add no NUL to it.
proof fn lemma_fields_add_no_nul(text: Seq<char>)
    ensures
        has_nul("title="@ + text) == has_nul(text),
        has_nul("album="@ + text) == has_nul(text),
        has_nul("lyrics="@ + text) == has_nul(text),
        has_nul("artist="@ + text) == has_nul(text),
        has_nul("comment="@ + text) == has_nul(text),
        !has_nul("-metadata"@),
        !has_nul("-disposition:v"@),
        !has_nul("attached_pic"@),
{
    reveal_strlit("title=");
    reveal_strlit("album=");
    reveal_strlit("lyrics=");
    reveal_strlit("artist=");
    reveal_strlit("comment=");
    reveal_strlit("-metadata");
    reveal_strlit("-disposition:v");
    reveal_strlit("attached_pic");
    lemma_nul_in_concat("title="@, text);
    lemma_nul_in_concat("album="@, text);
    lemma_nul_in_concat("lyrics="@, text);
    lemma_nul_in_concat("artist="@, text);
    lemma_nul_in_concat("comment="@, text);
}

/// Builds the transcoder command for a job. The command is not started. A job
/// with a NUL character in a path or in a tag gets no command but a transcode
/// error.
pub fn assemble(job: &TranscodeJob) -> (r: Result<FfmpegCommand, ErrorKind>)
    ensures
        match r {
            Ok(cmd) => !job_has_nul(job@) && command_args(cmd) == transcode_args(job@),
            Err(kind) => job_has_nul(job@) && kind == ErrorKind::Transcode,
        },
{
    if job.has_nul() {
        return Err(ErrorKind::Transcode);
    }
    let title = String::from_str("title=").concat(job.tags.title.as_str());
    let album = String::from_str("album=").concat(job.tags.album.as_str());
    let lyrics = String::from_str("lyrics=").concat(job.tags.lyrics.as_str());
    let artist = String::from_str("artist=").concat(job.tags.artist.as_str());
    let comment = String::from_str("comment=").concat(job.tags.comment.as_str());
    proof {
        lemma_fields_add_no_nul(job.tags.title@);
        lemma_fields_add_no_nul(job.tags.album@);
        lemma_fields_add_no_nul(job.tags.lyrics@);
        lemma_fields_add_no_nul(job.tags.artist@);
        lemma_fields_add_no_nul(job.tags.comment@);
    }
    let mut cmd = new_command();
    add_input(&mut cmd, job.input.as_str());
    add_input(&mut cmd, job.cover.as_str());
    add_hide_banner(&mut cmd);
    add_no_overwrite(&mut cmd);
    add_pair(&mut cmd, "-metadata", title.as_str());
    add_pair(&mut cmd, "-metadata", album.as_str());
    add_pair(&mut cmd, "-metadata", lyrics.as_str());
    add_pair(&mut cmd, "-metadata", artist.as_str());
    add_pair(&mut cmd, "-metadata", comment.as_str());
    add_pair(&mut cmd, "-disposition:v", "attached_pic");
    add_output(&mut cmd, job.output.as_str());
    Ok(cmd)
}

/// Builds the transcoder command that turns the raw audio at `input_path` and
/// the image at `cover_path` into the finished file at `output_path`, tagged
/// for `song` on `album`. Where a path or a tag holds a NUL character, the
/// result is a transcode error.
pub fn process_wav(
    input_path: &str,
    output_path: &str,
    cover_path: &str,
    album: &AlbumData,
    song: &SongData,
) -> (r: Result<FfmpegCommand, ErrorKind>)
    ensures
        ({
            let job = job_of(input_path@, cover_path@, output_path@, album@.context(), song@);
            match r {
                Ok(cmd) => !job_has_nul(job) && command_args(cmd) == transcode_args(job),
                Err(kind) => job_has_nul(job) && kind == ErrorKind::Transcode,
            }
        }),
{
    let context = album.context();
    let job = TranscodeJob {
        input: String::from_str(input_path),
        cover: String::from_str(cover_path),
        output: String::from_str(output_path),
        tags: metadata_tags(&context, song),
    };
    assemble(&job)
}

/// The arguments of a command, in order.
pub fn command_line(cmd: &FfmpegCommand) -> (args: Vec<String>)
    ensures
        texts(args@) == command_args(*cmd),
{
    read_args(cmd)
}

} // verus!
