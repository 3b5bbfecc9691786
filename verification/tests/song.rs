use siren_ripper::error::ErrorKind;
use siren_ripper::records::{AlbumContext, AlbumData, AlbumDetail, SongData, SongDetail};
use siren_ripper::song::{get_song, SongRun, SongStage};
use siren_ripper::steps::{download_file, Action, Event};
use siren_ripper::transcoder::{Tags, TranscodeJob};

fn aurora() -> SongDetail {
    SongDetail {
        code: 0,
        msg: String::new(),
        data: SongData {
            cid: "7".to_string(),
            name: "Aurora".to_string(),
            album_cid: "3".to_string(),
            source_url: "https://cdn.example.org/aurora.wav".to_string(),
            lyric_url: None,
            mv_url: None,
            mv_cover_url: None,
            artists: vec!["A".to_string(), "B".to_string()],
        },
    }
}

fn vespers() -> AlbumDetail {
    AlbumDetail {
        code: 0,
        msg: String::new(),
        data: AlbumData {
            cid: "3".to_string(),
            name: "Vespers".to_string(),
            intro: "intro".to_string(),
            belong: "belong".to_string(),
            cover_url: "https://cdn.example.org/vespers.jpg".to_string(),
            cover_de_url: "https://cdn.example.org/vespers-banner.jpg".to_string(),
            songs: Vec::new(),
        },
    }
}

fn context() -> AlbumContext {
    AlbumContext { cid: "3".to_string(), name: "Vespers".to_string() }
}

fn aurora_job(dir: &str) -> TranscodeJob {
    TranscodeJob {
        input: format!("{dir}/Aurora.wav"),
        cover: format!("{dir}/cover.jpg"),
        output: format!("{dir}/Aurora.flac"),
        tags: Tags {
            title: "Aurora".to_string(),
            album: "Vespers".to_string(),
            lyrics: String::new(),
            artist: "A,B".to_string(),
            comment: "albumCid 3, cid 7".to_string(),
        },
    }
}

fn drive(run: SongRun, events: Vec<Event>) -> (SongRun, Vec<Action>) {
    let mut run = run;
    let mut actions = Vec::new();
    for event in events {
        let (next, action) = run.step(event);
        run = next;
        actions.push(action);
    }
    (run, actions)
}

#[test]
fn song_run_begins_with_the_request_for_the_song() {
    let (run, action) = get_song("/music".to_string(), 7, None);
    assert_eq!(
        action,
        Action::FetchSong { url: "https://monster-siren.hypergryph.com/api/song/7".to_string() }
    );
    assert_eq!(run.stage, SongStage::FetchingSong);
    assert_eq!(run.dir, "/music");
    assert_eq!(run.album, None);
}

#[test]
fn finished_song_is_skipped_without_further_requests() {
    let (run, _) = get_song("/music/Vespers".to_string(), 7, Some(context()));
    let (run, actions) = drive(run, vec![Event::Song(aurora()), Event::Exists(true)]);
    assert_eq!(
        actions,
        vec![
            Action::Probe { path: "/music/Vespers/Aurora.flac".to_string() },
            Action::SongFinished { path: "/music/Vespers/Aurora.flac".to_string(), skipped: true },
        ]
    );
    assert_eq!(run.stage, SongStage::Done { song: aurora().data, skipped: true });
}

#[test]
fn finished_song_stays_finished() {
    let (run, _) = get_song("/music/Vespers".to_string(), 7, None);
    let (run, _) = drive(run, vec![Event::Song(aurora()), Event::Exists(true)]);
    let before = run.clone();
    let (run, actions) = drive(
        run,
        vec![Event::Done, Event::Exists(false), Event::Failed(ErrorKind::Transport)],
    );
    let word =
        Action::SongFinished { path: "/music/Vespers/Aurora.flac".to_string(), skipped: true };
    assert_eq!(actions, vec![word.clone(), word.clone(), word]);
    assert_eq!(run, before);
}

#[test]
fn song_with_album_goes_from_download_to_transcoder() {
    let (run, _) = get_song("/music/Vespers".to_string(), 7, Some(context()));
    let (run, actions) = drive(
        run,
        vec![
            Event::Song(aurora()),
            Event::Exists(false),
            Event::Exists(false),
            Event::Done,
            Event::Done,
            Event::Done,
        ],
    );
    assert_eq!(
        actions,
        vec![
            Action::Probe { path: "/music/Vespers/Aurora.flac".to_string() },
            Action::Probe { path: "/music/Vespers/Aurora.wav".to_string() },
            Action::Download {
                url: "https://cdn.example.org/aurora.wav".to_string(),
                path: "/music/Vespers/Aurora.wav".to_string(),
            },
            Action::Transcode { job: aurora_job("/music/Vespers") },
            Action::Remove { path: "/music/Vespers/Aurora.wav".to_string() },
            Action::SongFinished {
                path: "/music/Vespers/Aurora.flac".to_string(),
                skipped: false,
            },
        ]
    );
    assert_eq!(run.stage, SongStage::Done { song: aurora().data, skipped: false });
}

#[test]
fn raw_audio_from_an_earlier_run_is_not_downloaded_again() {
    let (run, _) = get_song("/music/Vespers".to_string(), 7, Some(context()));
    let (_, actions) =
        drive(run, vec![Event::Song(aurora()), Event::Exists(false), Event::Exists(true)]);
    assert_eq!(actions[2], Action::Transcode { job: aurora_job("/music/Vespers") });
}

#[test]
fn song_alone_looks_up_its_album_and_cover() {
    let (run, _) = get_song("/music".to_string(), 7, None);
    let (run, actions) = drive(
        run,
        vec![
            Event::Song(aurora()),
            Event::Exists(false),
            Event::Exists(false),
            Event::Done,
            Event::Album(vespers()),
            Event::Exists(false),
            Event::Done,
            Event::Done,
            Event::Done,
        ],
    );
    assert_eq!(
        actions,
        vec![
            Action::Probe { path: "/music/Aurora.flac".to_string() },
            Action::Probe { path: "/music/Aurora.wav".to_string() },
            Action::Download {
                url: "https://cdn.example.org/aurora.wav".to_string(),
                path: "/music/Aurora.wav".to_string(),
            },
            Action::FetchAlbum {
                url: "https://monster-siren.hypergryph.com/api/album/3/detail".to_string()
            },
            Action::Probe { path: "/music/cover.jpg".to_string() },
            Action::Download {
                url: "https://cdn.example.org/vespers.jpg".to_string(),
                path: "/music/cover.jpg".to_string(),
            },
            Action::Transcode { job: aurora_job("/music") },
            Action::Remove { path: "/music/Aurora.wav".to_string() },
            Action::SongFinished { path: "/music/Aurora.flac".to_string(), skipped: false },
        ]
    );
    assert_eq!(run.stage, SongStage::Done { song: aurora().data, skipped: false });
}

#[test]
fn cover_that_is_there_is_not_downloaded_for_a_song_alone() {
    let (run, _) = get_song("/music".to_string(), 7, None);
    let (_, actions) = drive(
        run,
        vec![
            Event::Song(aurora()),
            Event::Exists(false),
            Event::Exists(true),
            Event::Album(vespers()),
            Event::Exists(true),
        ],
    );
    assert_eq!(actions[4], Action::Transcode { job: aurora_job("/music") });
}

#[test]
fn failed_transcoder_has_its_output_discarded() {
    let (run, _) = get_song("/music/Vespers".to_string(), 7, Some(context()));
    let (run, actions) = drive(
        run,
        vec![
            Event::Song(aurora()),
            Event::Exists(false),
            Event::Exists(true),
            Event::Failed(ErrorKind::Transcode),
            Event::Done,
        ],
    );
    assert_eq!(actions[3], Action::Discard { path: "/music/Vespers/Aurora.flac".to_string() });
    assert_eq!(actions[4], Action::Abort { kind: ErrorKind::Transcode });
    assert_eq!(run.stage, SongStage::Failed { kind: ErrorKind::Transcode });
}

#[test]
fn failed_discard_keeps_the_kind_of_the_transcoder() {
    let (run, _) = get_song("/music/Vespers".to_string(), 7, Some(context()));
    let (run, actions) = drive(
        run,
        vec![
            Event::Song(aurora()),
            Event::Exists(false),
            Event::Exists(true),
            Event::Failed(ErrorKind::Transcode),
            Event::Failed(ErrorKind::Filesystem),
        ],
    );
    assert_eq!(actions[4], Action::Abort { kind: ErrorKind::Transcode });
    assert_eq!(run.stage, SongStage::Failed { kind: ErrorKind::Transcode });
}

#[test]
fn failed_request_ends_the_run_with_its_kind() {
    let (run, _) = get_song("/music".to_string(), 7, None);
    let (run, actions) = drive(run, vec![Event::Failed(ErrorKind::Transport)]);
    assert_eq!(actions, vec![Action::Abort { kind: ErrorKind::Transport }]);
    assert_eq!(run.stage, SongStage::Failed { kind: ErrorKind::Transport });
}

#[test]
fn failed_download_ends_the_run() {
    let (run, _) = get_song("/music".to_string(), 7, None);
    let (_, actions) = drive(
        run,
        vec![
            Event::Song(aurora()),
            Event::Exists(false),
            Event::Exists(false),
            Event::Failed(ErrorKind::Filesystem),
        ],
    );
    assert_eq!(actions[3], Action::Abort { kind: ErrorKind::Filesystem });
}

#[test]
fn failed_removal_ends_the_run() {
    let (run, _) = get_song("/music/Vespers".to_string(), 7, Some(context()));
    let (_, actions) = drive(
        run,
        vec![
            Event::Song(aurora()),
            Event::Exists(false),
            Event::Exists(true),
            Event::Done,
            Event::Failed(ErrorKind::Filesystem),
        ],
    );
    assert_eq!(actions[4], Action::Abort { kind: ErrorKind::Filesystem });
}

#[test]
fn answer_of_the_wrong_shape_is_a_decode_error() {
    let (run, _) = get_song("/music".to_string(), 7, None);
    let (run, actions) = drive(run, vec![Event::Exists(true)]);
    assert_eq!(actions, vec![Action::Abort { kind: ErrorKind::Decode }]);
    assert_eq!(run.stage, SongStage::Failed { kind: ErrorKind::Decode });
}

#[test]
fn album_identifier_that_cannot_be_read_is_a_decode_error() {
    let mut detail = aurora();
    detail.data.album_cid = "three".to_string();
    let (run, _) = get_song("/music".to_string(), 7, None);
    let (_, actions) =
        drive(run, vec![Event::Song(detail), Event::Exists(false), Event::Exists(true)]);
    assert_eq!(actions[2], Action::Abort { kind: ErrorKind::Decode });
}

#[test]
fn given_up_run_stays_given_up() {
    let (run, _) = get_song("/music".to_string(), 7, None);
    let (run, actions) = drive(
        run,
        vec![Event::Failed(ErrorKind::Transport), Event::Song(aurora()), Event::Done],
    );
    assert_eq!(actions[1], Action::Abort { kind: ErrorKind::Transport });
    assert_eq!(actions[2], Action::Abort { kind: ErrorKind::Transport });
    assert_eq!(run.stage, SongStage::Failed { kind: ErrorKind::Transport });
}

#[test]
fn file_that_is_there_is_not_fetched() {
    assert_eq!(download_file("https://cdn.example.org/a.wav", "/music/a.wav", true), None);
}

#[test]
fn file_that_is_missing_is_fetched_once() {
    assert_eq!(
        download_file("https://cdn.example.org/a.wav", "/music/a.wav", false),
        Some(Action::Download {
            url: "https://cdn.example.org/a.wav".to_string(),
            path: "/music/a.wav".to_string(),
        })
    );
}

#[test]
fn failure_is_refused_with_its_kind_and_anything_else_as_decode_error() {
    assert_eq!(Event::Failed(ErrorKind::Filesystem).refusal(), ErrorKind::Filesystem);
    assert_eq!(Event::Failed(ErrorKind::Usage).refusal(), ErrorKind::Usage);
    assert_eq!(Event::Done.refusal(), ErrorKind::Decode);
    assert_eq!(Event::Exists(true).refusal(), ErrorKind::Decode);
    assert_eq!(Event::Song(aurora()).refusal(), ErrorKind::Decode);
}

#[test]
fn longest_song_run_takes_nine_answers() {
    let (mut run, _) = get_song("/music".to_string(), 7, None);
    let events = vec![
        Event::Song(aurora()),
        Event::Exists(false),
        Event::Exists(false),
        Event::Done,
        Event::Album(vespers()),
        Event::Exists(false),
        Event::Done,
        Event::Done,
        Event::Done,
    ];
    let mut ended_after = 0;
    for (i, event) in events.into_iter().enumerate() {
        assert!(!matches!(run.stage, SongStage::Done { .. } | SongStage::Failed { .. }));
        let (next, _) = run.step(event);
        run = next;
        ended_after = i + 1;
    }
    assert_eq!(ended_after, 9);
    assert!(matches!(run.stage, SongStage::Done { skipped: false, .. }));
}

#[test]
fn song_name_with_nul_ends_as_a_failed_transcoder_does() {
    let mut detail = aurora();
    detail.data.name = "Au\0rora".to_string();
    let (run, _) = get_song("/music/Vespers".to_string(), 7, Some(context()));
    let (run, actions) =
        drive(run, vec![Event::Song(detail), Event::Exists(false), Event::Exists(true)]);
    let job = match &actions[2] {
        Action::Transcode { job } => job.clone(),
        other => panic!("unexpected action {other:?}"),
    };
    assert!(job.has_nul());
    let kind = siren_ripper::transcoder::assemble(&job).err().unwrap();
    assert_eq!(kind, ErrorKind::Transcode);
    let (run, actions) = drive(run, vec![Event::Failed(kind), Event::Done]);
    assert_eq!(actions[0], Action::Discard { path: "/music/Vespers/Au\0rora.flac".to_string() });
    assert_eq!(actions[1], Action::Abort { kind: ErrorKind::Transcode });
    assert_eq!(run.stage, SongStage::Failed { kind: ErrorKind::Transcode });
}
