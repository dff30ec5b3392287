use safe_backup::errors::{Error, NameRejection};
use safe_backup::validate::{sanitize_filename, Filename};

#[test]
fn test_sanitize_accepts_valid() {
    assert_eq!(sanitize_filename("sample.txt"), Ok("sample.txt".to_string()));
    assert_eq!(sanitize_filename("notes.log"), Ok("notes.log".to_string()));
    assert_eq!(sanitize_filename("readme.md"), Ok("readme.md".to_string()));
    assert_eq!(
        sanitize_filename("a-b_c.1.txt"),
        Ok("a-b_c.1.txt".to_string())
    );
    assert_eq!(sanitize_filename(".hidden.txt"), Ok(".hidden.txt".to_string()));
}

#[test]
fn test_sanitize_rejects_empty() {
    assert_eq!(
        sanitize_filename(""),
        Err(Error::InvalidName(NameRejection::Empty))
    );
}

#[test]
fn test_sanitize_rejects_too_long() {
    let long = format!("{}.txt", "a".repeat(300));
    assert_eq!(
        sanitize_filename(&long),
        Err(Error::InvalidName(NameRejection::TooLong))
    );
    // length is checked before content, so a long name full of separators
    // still fails as too long
    let long_seps = "/".repeat(300);
    assert_eq!(
        sanitize_filename(&long_seps),
        Err(Error::InvalidName(NameRejection::TooLong))
    );
    // 255 bytes exactly is still accepted
    let edge = format!("{}.txt", "a".repeat(251));
    assert_eq!(edge.len(), 255);
    assert_eq!(sanitize_filename(&edge), Ok(edge.clone()));
}

#[test]
fn test_sanitize_rejects_separators() {
    assert_eq!(
        sanitize_filename("a/b.txt"),
        Err(Error::InvalidName(NameRejection::Separator))
    );
    assert_eq!(
        sanitize_filename("a\\b.txt"),
        Err(Error::InvalidName(NameRejection::Separator))
    );
}

#[test]
fn test_sanitize_rejects_traversal() {
    assert_eq!(
        sanitize_filename("a..b.txt"),
        Err(Error::InvalidName(NameRejection::Traversal))
    );
    // a separator is reported before the traversal token
    assert_eq!(
        sanitize_filename("../x.txt"),
        Err(Error::InvalidName(NameRejection::Separator))
    );
}

#[test]
fn test_sanitize_rejects_bad_bytes() {
    assert_eq!(
        sanitize_filename("a b.txt"),
        Err(Error::InvalidName(NameRejection::BadByte))
    );
    assert_eq!(
        sanitize_filename("caf\u{e9}.txt"),
        Err(Error::InvalidName(NameRejection::BadByte))
    );
}

#[test]
fn test_sanitize_rejects_missing_extension() {
    assert_eq!(
        sanitize_filename("noext"),
        Err(Error::InvalidName(NameRejection::MissingExtension))
    );
    assert_eq!(
        sanitize_filename(".txt"),
        Err(Error::InvalidName(NameRejection::MissingExtension))
    );
}

#[test]
fn test_sanitize_rejects_wrong_extension() {
    assert_eq!(
        sanitize_filename("a.exe"),
        Err(Error::InvalidName(NameRejection::ExtensionNotAllowed))
    );
    assert_eq!(
        sanitize_filename("a."),
        Err(Error::InvalidName(NameRejection::ExtensionNotAllowed))
    );
    assert_eq!(
        sanitize_filename("a.txtx"),
        Err(Error::InvalidName(NameRejection::ExtensionNotAllowed))
    );
}

#[test]
fn test_backup_traversal_blocked() {
    // a malicious path must be rejected before any filesystem work
    let err = sanitize_filename("../../etc/passwd").unwrap_err();
    let msg = err.message();
    assert!(msg.contains("path separators") || msg.contains("traversal"));
}

#[test]
fn test_restore_traversal_blocked() {
    let err = sanitize_filename("../foo.txt").unwrap_err();
    let msg = err.message();
    assert!(msg.contains("path separators") || msg.contains("traversal"));
}

#[test]
fn test_filename_derived_paths() {
    let f = Filename::new("a.txt").expect("valid name");
    assert_eq!(f.as_str(), "a.txt");
    assert_eq!(f.bak_name(), "a.txt.bak");
    assert_eq!(f.tmp_name(), "a.txt.tmp");
    assert_eq!(
        Filename::new("x/y.txt").unwrap_err(),
        Error::InvalidName(NameRejection::Separator)
    );
}

#[test]
fn test_error_messages() {
    assert_eq!(
        Error::InvalidName(NameRejection::Empty).message(),
        "filename is empty"
    );
    assert_eq!(
        Error::InvalidName(NameRejection::ExtensionNotAllowed).message(),
        "only .txt, .log, or .md files are allowed in this tool"
    );
    assert_eq!(
        Error::AlreadyExists.message(),
        "backup already exists, refusing to overwrite"
    );
    assert_eq!(Error::PathEscape.message(), "path escapes working directory");
    assert_eq!(Error::NotFound.message(), "file does not exist");
    assert_eq!(Error::NotRegularFile.message(), "not a regular file");
    assert_eq!(Error::IoFailure.message(), "file operation failed");
}
