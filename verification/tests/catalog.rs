use siren_ripper::catalog::{get_all_albums, CatalogRun, CatalogStage};
use siren_ripper::error::ErrorKind;
use siren_ripper::records::{AlbumData, AlbumDetail, AlbumSummary, CatalogRoot};
use siren_ripper::run::{start, Run};
use siren_ripper::selector::Scope;
use siren_ripper::steps::{Action, Event};

fn summary(cid: &str, name: &str) -> AlbumSummary {
    AlbumSummary {
        cid: cid.to_string(),
        name: name.to_string(),
        cover_url: format!("https://cdn.example.org/{cid}.jpg"),
        artists: vec!["A".to_string()],
    }
}

fn catalog(albums: Vec<AlbumSummary>) -> CatalogRoot {
    CatalogRoot { code: 0, msg: String::new(), data: albums }
}

fn empty_album(cid: &str, name: &str) -> AlbumDetail {
    AlbumDetail {
        code: 0,
        msg: String::new(),
        data: AlbumData {
            cid: cid.to_string(),
            name: name.to_string(),
            intro: String::new(),
            belong: String::new(),
            cover_url: format!("https://cdn.example.org/{cid}.jpg"),
            cover_de_url: String::new(),
            songs: Vec::new(),
        },
    }
}

fn drive(run: CatalogRun, events: Vec<Event>) -> (CatalogRun, Vec<Action>) {
    let mut run = run;
    let mut actions = Vec::new();
    for event in events {
        let (next, action) = run.step(event);
        run = next;
        actions.push(action);
    }
    (run, actions)
}

fn asked(actions: &[Action]) -> Vec<String> {
    actions
        .iter()
        .filter_map(|a| match a {
            Action::FetchAlbum { url } => Some(url.clone()),
            _ => None,
        })
        .collect()
}

#[test]
fn catalog_run_begins_with_the_request_for_the_list() {
    let (run, action) = get_all_albums("./rips".to_string());
    assert_eq!(
        action,
        Action::FetchCatalog { url: "https://monster-siren.hypergryph.com/api/albums".to_string() }
    );
    assert_eq!(run.stage, CatalogStage::FetchingCatalog);
}

#[test]
fn albums_are_resolved_in_the_order_of_the_list() {
    let (run, _) = get_all_albums("./rips".to_string());
    let (run, actions) = drive(
        run,
        vec![
            Event::Catalog(catalog(vec![
                summary("30", "Third"),
                summary("10", "First"),
                summary("20", "Second"),
            ])),
            Event::Album(empty_album("30", "Third")),
            Event::Done,
            Event::Exists(true),
            Event::Album(empty_album("10", "First")),
            Event::Done,
            Event::Exists(true),
            Event::Album(empty_album("20", "Second")),
            Event::Done,
            Event::Exists(true),
        ],
    );
    assert_eq!(
        asked(&actions),
        vec![
            "https://monster-siren.hypergryph.com/api/album/30/detail",
            "https://monster-siren.hypergryph.com/api/album/10/detail",
            "https://monster-siren.hypergryph.com/api/album/20/detail",
        ]
    );
    assert_eq!(
        actions[1..4],
        [
            Action::CreateDir { path: "./rips/Third".to_string() },
            Action::Probe { path: "./rips/Third/cover.jpg".to_string() },
            Action::FetchAlbum {
                url: "https://monster-siren.hypergryph.com/api/album/10/detail".to_string()
            },
        ]
    );
    assert_eq!(actions.last(), Some(&Action::Finished));
    assert_eq!(run.stage, CatalogStage::Done);
}

#[test]
fn empty_catalog_is_complete_at_once() {
    let (run, _) = get_all_albums("./rips".to_string());
    let (run, actions) = drive(run, vec![Event::Catalog(catalog(Vec::new()))]);
    assert_eq!(actions, vec![Action::Finished]);
    assert_eq!(run.stage, CatalogStage::Done);
}

#[test]
fn failed_album_ends_the_whole_run() {
    let (run, _) = get_all_albums("./rips".to_string());
    let (run, actions) = drive(
        run,
        vec![
            Event::Catalog(catalog(vec![summary("10", "First"), summary("20", "Second")])),
            Event::Failed(ErrorKind::Transport),
            Event::Album(empty_album("20", "Second")),
        ],
    );
    assert_eq!(asked(&actions).len(), 1);
    assert_eq!(actions[1], Action::Abort { kind: ErrorKind::Transport });
    assert_eq!(actions[2], Action::Abort { kind: ErrorKind::Transport });
    assert_eq!(run.stage, CatalogStage::Failed { kind: ErrorKind::Transport });
}

#[test]
fn failed_catalog_request_ends_the_run() {
    let (run, _) = get_all_albums("./rips".to_string());
    let (run, actions) = drive(run, vec![Event::Failed(ErrorKind::Decode)]);
    assert_eq!(actions, vec![Action::Abort { kind: ErrorKind::Decode }]);
    assert_eq!(run.stage, CatalogStage::Failed { kind: ErrorKind::Decode });
}

#[test]
fn album_identifier_of_the_list_that_cannot_be_read_is_a_decode_error() {
    let (run, _) = get_all_albums("./rips".to_string());
    let (_, actions) = drive(
        run,
        vec![
            Event::Catalog(catalog(vec![summary("10", "First"), summary("x", "Second")])),
            Event::Album(empty_album("10", "First")),
            Event::Done,
            Event::Exists(true),
        ],
    );
    assert_eq!(asked(&actions).len(), 1);
    assert_eq!(actions[3], Action::Abort { kind: ErrorKind::Decode });
}

#[test]
fn run_of_each_scope_steps_like_its_own_run() {
    let (run, first) = start(Scope::All, "./rips".to_string());
    assert!(matches!(first, Action::FetchCatalog { .. }));
    let (run, action) = run.step(Event::Catalog(catalog(Vec::new())));
    assert_eq!(action, Action::Finished);
    assert!(matches!(run, Run::All(_)));

    let (run, first) = start(Scope::Album(3), "./rips".to_string());
    assert!(matches!(first, Action::FetchAlbum { .. }));
    let (_, action) = run.step(Event::Album(empty_album("3", "Vespers")));
    assert_eq!(action, Action::CreateDir { path: "./rips/Vespers".to_string() });

    let (run, first) = start(Scope::Song(7), "./rips".to_string());
    assert!(matches!(first, Action::FetchSong { .. }));
    let (_, action) = run.step(Event::Failed(ErrorKind::Transport));
    assert_eq!(action, Action::Abort { kind: ErrorKind::Transport });
}
