use safe_backup::engine::{
    backup, backup_decision, chunk_len, delete, delete_decision, overwrite_with_zeros, restore,
    restore_attempt, restore_decision, Entry, FileSpace,
};
use safe_backup::errors::Error;

fn file(bytes: &[u8]) -> Entry {
    Entry::File(bytes.to_vec())
}

fn content(e: &Entry) -> Option<&Vec<u8>> {
    match e {
        Entry::File(c) => Some(c),
        _ => None,
    }
}

fn is_missing(e: &Entry) -> bool {
    matches!(e, Entry::Missing)
}

#[test]
fn test_backup_valid() {
    let mut fs = FileSpace { main: file(b"hello"), bak: Entry::Missing, tmp: Entry::Missing };
    backup(&mut fs).expect("backup should succeed");
    assert_eq!(content(&fs.bak).unwrap(), b"hello");
    assert_eq!(content(&fs.main).unwrap(), b"hello");
    assert!(is_missing(&fs.tmp));
}

#[test]
fn test_restore_valid() {
    // create the file, back it up, modify it, restore it
    let mut fs = FileSpace { main: file(b"original"), bak: Entry::Missing, tmp: Entry::Missing };
    backup(&mut fs).unwrap();
    fs.main = file(b"modified");
    restore(&mut fs).unwrap();
    assert_eq!(content(&fs.main).unwrap(), b"original");
    assert_eq!(content(&fs.bak).unwrap(), b"original");
    assert!(is_missing(&fs.tmp));
}

#[test]
fn test_backup_restore_scenario() {
    // a.txt = "hello"; backup; a.txt = "bye"; restore brings "hello" back
    let mut fs = FileSpace { main: file(b"hello"), bak: Entry::Missing, tmp: Entry::Missing };
    backup(&mut fs).unwrap();
    assert_eq!(content(&fs.bak).unwrap(), b"hello");
    fs.main = file(b"bye");
    restore(&mut fs).unwrap();
    assert_eq!(content(&fs.main).unwrap(), b"hello");
    assert!(is_missing(&fs.tmp));
}

#[test]
fn test_backup_twice_already_exists() {
    let mut fs = FileSpace { main: file(b"one"), bak: Entry::Missing, tmp: Entry::Missing };
    backup(&mut fs).unwrap();
    fs.main = file(b"two");
    let err = backup(&mut fs).unwrap_err();
    assert_eq!(err, Error::AlreadyExists);
    // the first artifact is unmodified
    assert_eq!(content(&fs.bak).unwrap(), b"one");
}

#[test]
fn test_backup_missing_source() {
    let mut fs = FileSpace { main: Entry::Missing, bak: Entry::Missing, tmp: Entry::Missing };
    assert_eq!(backup(&mut fs).unwrap_err(), Error::NotFound);
    assert!(is_missing(&fs.bak));
}

#[test]
fn test_backup_source_not_regular() {
    let mut fs = FileSpace { main: Entry::NonFile, bak: Entry::Missing, tmp: Entry::Missing };
    assert_eq!(backup(&mut fs).unwrap_err(), Error::NotRegularFile);
}

#[test]
fn test_restore_missing_backup() {
    let mut fs = FileSpace { main: file(b"data"), bak: Entry::Missing, tmp: Entry::Missing };
    assert_eq!(restore(&mut fs).unwrap_err(), Error::NotFound);
    // no temp artifact is created and the file is untouched
    assert!(is_missing(&fs.tmp));
    assert_eq!(content(&fs.main).unwrap(), b"data");
}

#[test]
fn test_restore_rename_failure_rolls_back() {
    let mut fs = FileSpace { main: file(b"live"), bak: file(b"saved"), tmp: Entry::Missing };
    let err = restore_attempt(&mut fs, false).unwrap_err();
    assert_eq!(err, Error::IoFailure);
    // the original is untouched and the temp file is cleaned up
    assert_eq!(content(&fs.main).unwrap(), b"live");
    assert_eq!(content(&fs.bak).unwrap(), b"saved");
    assert!(is_missing(&fs.tmp));
}

#[test]
fn test_delete_valid() {
    let mut fs = FileSpace { main: file(b"secret"), bak: Entry::Missing, tmp: Entry::Missing };
    delete(&mut fs).expect("delete should succeed");
    assert!(is_missing(&fs.main));
}

#[test]
fn test_delete_missing() {
    let mut fs = FileSpace { main: Entry::Missing, bak: Entry::Missing, tmp: Entry::Missing };
    assert_eq!(delete(&mut fs).unwrap_err(), Error::NotFound);
}

#[test]
fn test_overwrite_zeroes_every_byte() {
    let mut fs = FileSpace { main: file(b"secret"), bak: Entry::Missing, tmp: Entry::Missing };
    let n = overwrite_with_zeros(&mut fs).unwrap();
    assert_eq!(n, 6);
    assert_eq!(content(&fs.main).unwrap(), &vec![0u8; 6]);
}

#[test]
fn test_overwrite_large_file_chunked() {
    // longer than one 8 KiB chunk, so several chunks are written
    let mut fs =
        FileSpace { main: file(&vec![7u8; 20000]), bak: Entry::Missing, tmp: Entry::Missing };
    let n = overwrite_with_zeros(&mut fs).unwrap();
    assert_eq!(n, 20000);
    assert_eq!(content(&fs.main).unwrap(), &vec![0u8; 20000]);
}

#[test]
fn test_chunk_len() {
    assert_eq!(chunk_len(10000, 0), 8192);
    assert_eq!(chunk_len(10000, 8192), 1808);
    assert_eq!(chunk_len(5, 0), 5);
    assert_eq!(chunk_len(8192, 0), 8192);
}

#[test]
fn test_backup_decision_order() {
    assert_eq!(backup_decision(true, true, false), Ok(()));
    assert_eq!(backup_decision(false, false, true), Err(Error::NotFound));
    assert_eq!(backup_decision(true, false, true), Err(Error::NotRegularFile));
    assert_eq!(backup_decision(true, true, true), Err(Error::AlreadyExists));
}

#[test]
fn test_restore_decision_order() {
    assert_eq!(restore_decision(true, true), Ok(()));
    assert_eq!(restore_decision(false, false), Err(Error::NotFound));
    assert_eq!(restore_decision(true, false), Err(Error::NotRegularFile));
}

#[test]
fn test_delete_decision_order() {
    assert_eq!(delete_decision(true, true), Ok(()));
    assert_eq!(delete_decision(false, false), Err(Error::NotFound));
    assert_eq!(delete_decision(true, false), Err(Error::NotRegularFile));
}
