use siren_ripper::error::ErrorKind;
use siren_ripper::run::{launch, Run};
use siren_ripper::selector::{select, Scope};
use siren_ripper::steps::Action;

#[test]
fn no_selector_is_a_usage_error() {
    assert_eq!(select(false, 0, 0), Err(ErrorKind::Usage));
}

#[test]
fn all_ignores_the_identifiers() {
    assert_eq!(select(true, 0, 0), Ok(Scope::All));
    assert_eq!(select(true, 5, 0), Ok(Scope::All));
    assert_eq!(select(true, 0, 9), Ok(Scope::All));
    assert_eq!(select(true, 5, 9), Ok(Scope::All));
}

#[test]
fn album_identifier_selects_the_album() {
    assert_eq!(select(false, 5, 0), Ok(Scope::Album(5)));
}

#[test]
fn song_identifier_selects_the_song() {
    assert_eq!(select(false, 0, 9), Ok(Scope::Song(9)));
}

#[test]
fn two_identifiers_are_a_usage_error() {
    assert_eq!(select(false, 5, 9), Err(ErrorKind::Usage));
}

#[test]
fn launch_without_selector_hands_out_nothing() {
    assert_eq!(launch(false, 0, 0, "./rips".to_string()), Err(ErrorKind::Usage));
}

#[test]
fn launch_of_all_asks_for_the_catalog() {
    let (run, action) = launch(true, 5, 9, "./rips".to_string()).unwrap();
    assert!(matches!(run, Run::All(_)));
    assert_eq!(
        action,
        Action::FetchCatalog { url: "https://monster-siren.hypergryph.com/api/albums".to_string() }
    );
}

#[test]
fn launch_of_an_album_asks_for_the_album() {
    let (run, action) = launch(false, 5, 0, "./rips".to_string()).unwrap();
    assert!(matches!(run, Run::Album(_)));
    assert_eq!(
        action,
        Action::FetchAlbum {
            url: "https://monster-siren.hypergryph.com/api/album/5/detail".to_string()
        }
    );
}

#[test]
fn launch_of_a_song_asks_for_the_song() {
    let (run, action) = launch(false, 0, 9, "./rips".to_string()).unwrap();
    assert!(matches!(run, Run::Song(_)));
    assert_eq!(
        action,
        Action::FetchSong { url: "https://monster-siren.hypergryph.com/api/song/9".to_string() }
    );
}
