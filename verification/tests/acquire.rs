use bbb_queue::acquire::file_name_of;
use bbb_queue::acquire::parse_destination;
use bbb_queue::acquire::Acquisition;
use bbb_queue::track_info::TrackInfo;

fn parse(line: &str) -> Option<Vec<u8>> {
    parse_destination(&line.as_bytes().to_vec())
}

#[test]
fn destination_line_is_recognized() {
    assert_eq!(
        parse("[youtube] Destination: dl/youtube.abc.m4a"),
        Some(b"dl/youtube.abc.m4a".to_vec())
    );
    assert_eq!(parse("[download]\t Destination: \t a b c"), Some(b"a b c".to_vec()));
    // any ASCII whitespace separates, as the original pattern's class did
    assert_eq!(parse("[x]\r Destination:\u{0B} p"), Some(b"p".to_vec()));
}

#[test]
fn later_bracket_pairs_are_tried() {
    // the first closing bracket is not followed by the marker; a later one is
    assert_eq!(parse("[x] y [z] Destination: p"), Some(b"p".to_vec()));
    assert_eq!(parse("[a][b] Destination: q"), Some(b"q".to_vec()));
}

#[test]
fn malformed_lines_are_rejected() {
    assert_eq!(parse(""), None);
    assert_eq!(parse("Destination: p"), None);
    assert_eq!(parse("[x] Destination:p"), None);
    assert_eq!(parse("[x]Destination: p"), None);
    assert_eq!(parse("x] Destination: p"), None);
    assert_eq!(parse("[x Destination: p"), None);
    assert_eq!(parse("[x] Destinatioz: p"), None);
}

#[test]
fn capture_starts_after_the_blank_run() {
    assert_eq!(parse("[x]  Destination:   spaced path "), Some(b"spaced path ".to_vec()));
    // a line that ends right after the blank run names an empty path
    assert_eq!(parse("[x] Destination: "), Some(b"".to_vec()));
}

#[test]
fn file_names_are_the_last_component() {
    assert_eq!(file_name_of(&b"a/b/c.m4a".to_vec()), Some(b"c.m4a".to_vec()));
    assert_eq!(file_name_of(&b"plain".to_vec()), Some(b"plain".to_vec()));
    assert_eq!(file_name_of(&b"dir/".to_vec()), Some(b"dir".to_vec()));
    assert_eq!(file_name_of(&b"a/.".to_vec()), Some(b"a".to_vec()));
    assert_eq!(file_name_of(&b"a/..".to_vec()), None);
    assert_eq!(file_name_of(&b"..".to_vec()), None);
    assert_eq!(file_name_of(&b".".to_vec()), None);
    assert_eq!(file_name_of(&b"/".to_vec()), None);
    assert_eq!(file_name_of(&b"".to_vec()), None);
}

#[test]
fn acquisition_keeps_last_destination_and_finalizes_once_drained() {
    let mut acq = Acquisition::new();
    acq.on_line(&b"[youtube] Extracting URL".to_vec());
    acq.on_line(&b"[download] Destination: dl/first.m4a".to_vec());
    acq.on_line(&b"[download] 100% of 3.1MiB".to_vec());
    acq.on_line(&b"[ExtractAudio] Destination: dl/second.m4a".to_vec());
    let id = acq.finish();
    assert_eq!(id, Some(b"second.m4a".to_vec()));
}

#[test]
fn acquisition_without_destination_yields_no_identifier() {
    let mut acq = Acquisition::new();
    acq.on_line(&b"[youtube] nothing to see".to_vec());
    assert_eq!(acq.finish(), None);
}

#[test]
fn track_info_requires_every_field() {
    let t = TrackInfo::new(
        Some("Title".to_string()),
        Some("Artist".to_string()),
        Some(123),
    )
    .unwrap();
    assert_eq!(t.title, "Title");
    assert_eq!(t.artist, "Artist");
    assert_eq!(t.duration_secs, 123);
    assert!(TrackInfo::new(None, Some("a".to_string()), Some(1)).is_none());
    assert!(TrackInfo::new(Some("t".to_string()), None, Some(1)).is_none());
    assert!(TrackInfo::new(Some("t".to_string()), Some("a".to_string()), None).is_none());
}
