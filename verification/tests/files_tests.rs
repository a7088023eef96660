use std::ops::Range;

use warp_oss_shims::files::{
    requested_lines, text_file_segments, try_read_text_file_bytes, try_text_file_segments, ContentVersion,
    FileId, FileLoadError, FileModel, FileModelEvent, FileSaveError, FileWriteStep, TextFileReadResult,
};
use warp_oss_shims::text_lines::split_lines;

fn segments(r: TextFileReadResult) -> (Vec<(String, Option<Range<usize>>, usize)>, usize) {
    match r {
        TextFileReadResult::Segments { segments, bytes_read } => (
            segments.into_iter().map(|s| (s.content, s.line_range, s.line_count)).collect(),
            bytes_read,
        ),
        TextFileReadResult::NotText => panic!("expected segments"),
    }
}

#[test]
fn split_lines_follows_str_lines() {
    for text in ["", "a", "a\n", "\n", "a\nb", "a\r\nb\r\n", "a\n\nb", "x\r", "\r\n\r\n", "é\nü"] {
        let expected: Vec<String> = text.lines().map(|l| l.to_string()).collect();
        assert_eq!(split_lines(text), expected, "text {:?}", text);
    }
}

#[test]
fn whole_file_is_one_segment_without_range() {
    let r = text_file_segments("one\ntwo\nthree\n", "f.txt".to_string(), 1000, &[], None);
    let (segs, read) = segments(r);
    assert_eq!(segs, vec![("one\ntwo\nthree".to_string(), None, 3)]);
    assert_eq!(read, 13);
}

#[test]
fn ranges_pick_one_based_lines() {
    let r = text_file_segments("l1\nl2\nl3\nl4", "f".to_string(), 1000, &[2..4, 4..10], None);
    let (segs, read) = segments(r);
    assert_eq!(
        segs,
        vec![
            ("l2\nl3".to_string(), Some(2..4), 4),
            ("l4".to_string(), Some(4..10), 4),
        ]
    );
    assert_eq!(read, 7);
}

#[test]
fn budget_cuts_the_segment_and_stops() {
    let r = text_file_segments("abcdef\nghij", "f".to_string(), 8, &[1..2, 2..3, 1..3], None);
    let (segs, read) = segments(r);
    assert_eq!(
        segs,
        vec![("abcdef".to_string(), Some(1..2), 2), ("gh".to_string(), Some(2..3), 2)]
    );
    assert_eq!(read, 8);
}

#[test]
fn zero_budget_reads_nothing() {
    let r = text_file_segments("abc", "f".to_string(), 0, &[], None);
    let (segs, read) = segments(r);
    assert!(segs.is_empty());
    assert_eq!(read, 0);
}

#[test]
fn empty_first_line_gets_no_separator() {
    let r = text_file_segments("\nx", "f".to_string(), 100, &[], None);
    let (segs, _) = segments(r);
    assert_eq!(segs[0].0, "x");
}

#[test]
fn cut_inside_a_character_is_refused() {
    assert!(try_text_file_segments("é", "f".to_string(), 1, &[], None).is_none());
    assert!(try_text_file_segments("é", "f".to_string(), 2, &[], None).is_some());
}

#[test]
fn bytes_that_are_not_utf8_are_not_text() {
    let r = try_read_text_file_bytes(vec![0xff, 0xfe], "f".to_string(), 10, &[], None).unwrap();
    assert!(matches!(r, TextFileReadResult::NotText));
    let r = try_read_text_file_bytes(b"hi\nthere".to_vec(), "f".to_string(), 10, &[1..2], None).unwrap();
    let (segs, read) = segments(r);
    assert_eq!(segs, vec![("hi".to_string(), Some(1..2), 2)]);
    assert_eq!(read, 2);
}

#[test]
fn requested_lines_are_zero_based_and_ordered() {
    let r = requested_lines("a\nb\nc\nd", vec![3, 1, 1, 9]);
    assert_eq!(r, vec![(1, "b".to_string()), (3, "d".to_string())]);
    assert!(requested_lines("a\nb", vec![]).is_empty());
}

#[test]
fn registered_file_is_found_and_ids_are_fresh() {
    let mut m = FileModel::new();
    let a = m.register_file_path("/tmp/a.txt".to_string(), false);
    let b = m.register_remote_file("host".to_string(), "/b".to_string());
    assert_ne!(a, b);
    assert_eq!(m.file_path(a), Some("/tmp/a.txt".to_string()));
    assert_eq!(m.file_path(b), None);
    assert_eq!(m.file_path(FileId(99)), None);
}

#[test]
fn version_is_read_back_and_forgotten() {
    let mut m = FileModel::new();
    let a = m.open("/x".to_string(), true);
    assert_eq!(m.version(a), None);
    m.set_version(a, ContentVersion(7));
    assert_eq!(m.version(a), Some(ContentVersion(7)));
    m.unsubscribe(a);
    assert_eq!(m.version(a), None);
    assert_eq!(m.file_path(a), None);
}

#[test]
fn finish_open_versions_loaded_content() {
    let mut m = FileModel::new();
    let a = m.open("/x".to_string(), false);
    match m.finish_open(a, Ok("content".to_string())) {
        FileModelEvent::FileLoaded { content, id, version } => {
            assert_eq!(content, "content");
            assert_eq!(id, a);
            assert_eq!(m.version(a), Some(version));
        }
        other => panic!("unexpected {:?}", other),
    }
    match m.finish_open(a, Err(FileLoadError::DoesNotExist)) {
        FileModelEvent::FailedToLoad { id, error } => {
            assert_eq!(id, a);
            assert_eq!(error, FileLoadError::DoesNotExist);
        }
        other => panic!("unexpected {:?}", other),
    }
}

#[test]
fn save_local_remote_and_unknown() {
    let mut m = FileModel::new();
    let local = m.register_file_path("/l".to_string(), false);
    let remote = m.register_remote_file("h1".to_string(), "/r".to_string());
    match m.save(local, "text".to_string(), ContentVersion(1)).unwrap() {
        FileWriteStep::Write { path, content } => {
            assert_eq!(path, "/l");
            assert_eq!(content, "text");
        }
        other => panic!("unexpected {:?}", other),
    }
    match m.save(remote, "text".to_string(), ContentVersion(1)).unwrap() {
        FileWriteStep::Rejected(FileModelEvent::FailedToSave { id, error: FileSaveError::RemoteError(msg) }) => {
            assert_eq!(id, remote);
            assert_eq!(msg, "Remote file support is not available in this build: h1:/r");
        }
        other => panic!("unexpected {:?}", other),
    }
    assert_eq!(
        m.save(FileId(42), "t".to_string(), ContentVersion(1)).unwrap_err(),
        FileSaveError::NoFilePath(FileId(42))
    );
    assert!(matches!(m.delete(local, ContentVersion(1)).unwrap(), FileWriteStep::Remove { path } if path == "/l"));
}

#[test]
fn rename_moves_the_path() {
    let mut m = FileModel::new();
    let a = m.register_file_path("/old".to_string(), false);
    match m.rename_and_save(a, "/new".to_string(), "c".to_string(), ContentVersion(3)).unwrap() {
        FileWriteStep::RenameAndWrite { from, to, content } => {
            assert_eq!((from.as_str(), to.as_str(), content.as_str()), ("/old", "/new", "c"));
        }
        other => panic!("unexpected {:?}", other),
    }
    assert_eq!(m.file_path(a), Some("/new".to_string()));
    let r = m.register_remote_file("h".to_string(), "/p".to_string());
    assert_eq!(
        m.rename_and_save(r, "/q".to_string(), "c".to_string(), ContentVersion(1)).unwrap_err(),
        FileSaveError::NoFilePath(r)
    );
}

#[test]
fn save_result_records_the_version() {
    let mut m = FileModel::new();
    let a = m.register_file_path("/a".to_string(), false);
    let e = m.emit_save_result(a, ContentVersion(5), Ok(()));
    assert!(matches!(e, FileModelEvent::FileSaved { id, version } if id == a && version == ContentVersion(5)));
    assert_eq!(m.version(a), Some(ContentVersion(5)));
    let e = m.emit_save_result(a, ContentVersion(6), Err(FileSaveError::RemoteError("x".to_string())));
    assert_eq!(e.file_id(), a);
    assert_eq!(m.version(a), Some(ContentVersion(5)));
}
