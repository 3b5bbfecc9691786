use siren_ripper::error::ErrorKind;

fn kinds() -> Vec<ErrorKind> {
    vec![
        ErrorKind::Transport,
        ErrorKind::Decode,
        ErrorKind::Filesystem,
        ErrorKind::Transcode,
        ErrorKind::Usage,
    ]
}

#[test]
fn exit_codes_are_not_zero() {
    for kind in kinds() {
        assert_ne!(kind.exit_code(), 0);
    }
}

#[test]
fn exit_codes_differ() {
    let all = kinds();
    for a in &all {
        for b in &all {
            if a != b {
                assert_ne!(a.exit_code(), b.exit_code());
            }
        }
    }
}

#[test]
fn exit_code_of_each_kind() {
    assert_eq!(ErrorKind::Usage.exit_code(), 2);
    assert_eq!(ErrorKind::Transport.exit_code(), 3);
    assert_eq!(ErrorKind::Decode.exit_code(), 4);
    assert_eq!(ErrorKind::Filesystem.exit_code(), 5);
    assert_eq!(ErrorKind::Transcode.exit_code(), 6);
}

#[test]
fn name_of_each_kind() {
    assert_eq!(ErrorKind::Transport.name(), "transport error");
    assert_eq!(ErrorKind::Decode.name(), "decode error");
    assert_eq!(ErrorKind::Filesystem.name(), "filesystem error");
    assert_eq!(ErrorKind::Transcode.name(), "transcode error");
    assert_eq!(ErrorKind::Usage.name(), "usage error");
}
