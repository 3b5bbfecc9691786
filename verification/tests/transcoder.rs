use siren_ripper::error::ErrorKind;
use siren_ripper::records::{AlbumData, SongData};
use siren_ripper::text::contains_nul;
use siren_ripper::transcoder::{
    assemble, command_line, metadata_tags, process_wav, Tags, TranscodeJob,
};

fn aurora() -> SongData {
    SongData {
        cid: "7".to_string(),
        name: "Aurora".to_string(),
        album_cid: "3".to_string(),
        source_url: "https://example.org/aurora.wav".to_string(),
        lyric_url: None,
        mv_url: None,
        mv_cover_url: None,
        artists: vec!["A".to_string(), "B".to_string()],
    }
}

fn vespers() -> AlbumData {
    AlbumData {
        cid: "3".to_string(),
        name: "Vespers".to_string(),
        intro: String::new(),
        belong: String::new(),
        cover_url: "https://example.org/vespers.jpg".to_string(),
        cover_de_url: String::new(),
        songs: Vec::new(),
    }
}

#[test]
fn metadata_mapping_of_a_song_without_lyrics() {
    let cmd = process_wav(
        "./rips/Vespers/Aurora.wav",
        "./rips/Vespers/Aurora.flac",
        "./rips/Vespers/cover.jpg",
        &vespers(),
        &aurora(),
    )
    .unwrap();
    let args = command_line(&cmd);
    let expected: Vec<String> = vec![
        "-loglevel",
        "level+info",
        "-i",
        "./rips/Vespers/Aurora.wav",
        "-i",
        "./rips/Vespers/cover.jpg",
        "-hide_banner",
        "-n",
        "-metadata",
        "title=Aurora",
        "-metadata",
        "album=Vespers",
        "-metadata",
        "lyrics=",
        "-metadata",
        "artist=A,B",
        "-metadata",
        "comment=albumCid 3, cid 7",
        "-disposition:v",
        "attached_pic",
        "./rips/Vespers/Aurora.flac",
    ]
    .into_iter()
    .map(|s| s.to_string())
    .collect();
    assert_eq!(args, expected);
}

#[test]
fn lyrics_tag_holds_the_address_where_there_is_one() {
    let mut song = aurora();
    song.lyric_url = Some("https://example.org/aurora.lrc".to_string());
    let cmd = process_wav("in.wav", "out.flac", "cover.jpg", &vespers(), &song).unwrap();
    let args = command_line(&cmd);
    assert_eq!(args[13], "lyrics=https://example.org/aurora.lrc");
}

#[test]
fn artist_tag_of_a_song_without_artists_is_empty() {
    let mut song = aurora();
    song.artists = Vec::new();
    let cmd = process_wav("in.wav", "out.flac", "cover.jpg", &vespers(), &song).unwrap();
    let args = command_line(&cmd);
    assert_eq!(args[15], "artist=");
}

#[test]
fn comment_takes_the_identifier_of_the_album_record() {
    let mut song = aurora();
    song.album_cid = "999".to_string();
    let cmd = process_wav("in.wav", "out.flac", "cover.jpg", &vespers(), &song).unwrap();
    let args = command_line(&cmd);
    assert_eq!(args[17], "comment=albumCid 3, cid 7");
}

#[test]
fn tags_of_a_song() {
    let tags = metadata_tags(&vespers().context(), &aurora());
    assert_eq!(
        tags,
        Tags {
            title: "Aurora".to_string(),
            album: "Vespers".to_string(),
            lyrics: String::new(),
            artist: "A,B".to_string(),
            comment: "albumCid 3, cid 7".to_string(),
        }
    );
}

#[test]
fn command_of_a_job_names_inputs_first_and_output_last() {
    let job = TranscodeJob {
        input: "a.wav".to_string(),
        cover: "c.jpg".to_string(),
        output: "a.flac".to_string(),
        tags: metadata_tags(&vespers().context(), &aurora()),
    };
    let args = command_line(&assemble(&job).unwrap());
    assert_eq!(args.len(), 21);
    assert_eq!(&args[2..6], &["-i", "a.wav", "-i", "c.jpg"]);
    assert_eq!(&args[6..8], &["-hide_banner", "-n"]);
    assert_eq!(&args[18..20], &["-disposition:v", "attached_pic"]);
    assert_eq!(args[20], "a.flac");
}

fn job() -> TranscodeJob {
    TranscodeJob {
        input: "a.wav".to_string(),
        cover: "c.jpg".to_string(),
        output: "a.flac".to_string(),
        tags: metadata_tags(&vespers().context(), &aurora()),
    }
}

#[test]
fn nul_is_found_wherever_it_stands() {
    assert!(!contains_nul(""));
    assert!(!contains_nul("Aurora"));
    assert!(!contains_nul("Étoile 星"));
    assert!(contains_nul("\0"));
    assert!(contains_nul("\0Aurora"));
    assert!(contains_nul("Au\0rora"));
    assert!(contains_nul("Aurora\0"));
    assert!(contains_nul("星\0"));
}

#[test]
fn job_without_nul_gets_its_command() {
    assert!(!job().has_nul());
    assert!(assemble(&job()).is_ok());
}

#[test]
fn song_name_with_nul_is_a_transcode_error() {
    let mut song = aurora();
    song.name = "Au\0rora".to_string();
    let r = process_wav("in.wav", "out.flac", "cover.jpg", &vespers(), &song);
    assert_eq!(r.err(), Some(ErrorKind::Transcode));
}

#[test]
fn output_path_with_nul_is_a_transcode_error() {
    let r = process_wav("in.wav", "a\0b", "cover.jpg", &vespers(), &aurora());
    assert_eq!(r.err(), Some(ErrorKind::Transcode));
}

#[test]
fn nul_in_any_path_or_tag_is_a_transcode_error() {
    let spoil: Vec<fn(&mut TranscodeJob)> = vec![
        |j| j.input.push('\0'),
        |j| j.cover.push('\0'),
        |j| j.output.push('\0'),
        |j| j.tags.title.push('\0'),
        |j| j.tags.album.push('\0'),
        |j| j.tags.lyrics.push('\0'),
        |j| j.tags.artist.push('\0'),
        |j| j.tags.comment.push('\0'),
    ];
    for spoil_one in spoil {
        let mut spoiled = job();
        spoil_one(&mut spoiled);
        assert!(spoiled.has_nul());
        assert_eq!(assemble(&spoiled).err(), Some(ErrorKind::Transcode));
    }
}

#[test]
fn artist_with_nul_is_a_transcode_error() {
    let mut song = aurora();
    song.artists = vec!["A".to_string(), "B\0".to_string()];
    let r = process_wav("in.wav", "out.flac", "cover.jpg", &vespers(), &song);
    assert_eq!(r.err(), Some(ErrorKind::Transcode));
}
