use siren_ripper::layout::{album_dir, cover_path, final_path, join_path, raw_path};

#[test]
fn song_lies_in_its_album_below_the_root() {
    let dir = album_dir("./rips", "Vespers");
    assert_eq!(dir, "./rips/Vespers");
    assert_eq!(final_path(&dir, "Aurora"), "./rips/Vespers/Aurora.flac");
}

#[test]
fn raw_audio_lies_beside_the_finished_file() {
    assert_eq!(raw_path("./rips/Vespers", "Aurora"), "./rips/Vespers/Aurora.wav");
}

#[test]
fn cover_lies_in_the_album_directory() {
    assert_eq!(cover_path("./rips/Vespers"), "./rips/Vespers/cover.jpg");
}

#[test]
fn root_may_end_in_a_separator() {
    assert_eq!(album_dir("./rips/", "Vespers"), "./rips/Vespers");
    assert_eq!(join_path("/", "Vespers"), "/Vespers");
}

#[test]
fn empty_parent_adds_nothing() {
    assert_eq!(join_path("", "Vespers"), "Vespers");
}

#[test]
fn names_are_taken_as_they_are() {
    assert_eq!(final_path("/music", "Mr. Blue"), "/music/Mr. Blue.flac");
    assert_eq!(raw_path("/music", "Mr. Blue"), "/music/Mr. Blue.wav");
    assert_eq!(final_path("/music", "a.b.c"), "/music/a.b.c.flac");
    assert_eq!(album_dir("/music", "Étoile 星"), "/music/Étoile 星");
    assert_eq!(final_path("/music", ""), "/music/.flac");
}
