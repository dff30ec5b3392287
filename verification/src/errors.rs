use vstd::prelude::*;

verus! {

/// The reason the name validator rejected an input string.
#[derive(Clone, Copy, Debug, PartialEq, Eq, Structural)]
pub enum NameRejection {
    /// The input was empty.
    Empty,
    /// The input was longer than 255 bytes.
    TooLong,
    /// The input contained a path separator.
    Separator,
    /// The input contained the traversal token `..`.
    Traversal,
    /// The input contained a byte outside the allowed set.
    BadByte,
    /// The input had no extension.
    MissingExtension,
    /// The input's extension is not on the allow-list.
    ExtensionNotAllowed,
}

/// Every failure a guarded file operation can report.
#[derive(Clone, Copy, Debug, PartialEq, Eq, Structural)]
pub enum Error {
    /// The name validator rejected the raw filename.
    InvalidName(NameRejection),
    /// The containment check found a path outside the working directory.
    PathEscape,
    /// The source file (or the backup to restore from) is missing.
    NotFound,
    /// The path exists but is not a regular file.
    NotRegularFile,
    /// A backup artifact already exists and is never overwritten.
    AlreadyExists,
    /// An underlying copy, write, rename or remove failed.
    IoFailure,
}

/// The human-readable line reported for each failure.
pub open spec fn message_of(e: Error) -> Seq<char> {
    match e {
        Error::InvalidName(NameRejection::Empty) => "filename is empty"@,
        Error::InvalidName(NameRejection::TooLong) => "filename too long"@,
        Error::InvalidName(NameRejection::Separator) => "path separators are not allowed"@,
        Error::InvalidName(NameRejection::Traversal) => "traversal tokens are not allowed"@,
        Error::InvalidName(NameRejection::BadByte) => "filename contains invalid characters"@,
        Error::InvalidName(NameRejection::MissingExtension) => "file must have an extension"@,
        Error::InvalidName(NameRejection::ExtensionNotAllowed) => (
            "only .txt, .log, or .md files are allowed in this tool"@
        ),
        Error::PathEscape => "path escapes working directory"@,
        Error::NotFound => "file does not exist"@,
        Error::NotRegularFile => "not a regular file"@,
        Error::AlreadyExists => "backup already exists, refusing to overwrite"@,
        Error::IoFailure => "file operation failed"@,
    }
}

impl Error {
    /// The failure rendered for a user, one fixed line per kind.
    pub fn message(&self) -> (r: String)
        ensures
            r@ == message_of(*self),
    {
        match self {
            Error::InvalidName(NameRejection::Empty) => "filename is empty".to_owned(),
            Error::InvalidName(NameRejection::TooLong) => "filename too long".to_owned(),
            Error::InvalidName(NameRejection::Separator) => (
                "path separators are not allowed".to_owned()
            ),
            Error::InvalidName(NameRejection::Traversal) => (
                "traversal tokens are not allowed".to_owned()
            ),
            Error::InvalidName(NameRejection::BadByte) => (
                "filename contains invalid characters".to_owned()
            ),
            Error::InvalidName(NameRejection::MissingExtension) => (
                "file must have an extension".to_owned()
            ),
            Error::InvalidName(NameRejection::ExtensionNotAllowed) => (
                "only .txt, .log, or .md files are allowed in this tool".to_owned()
            ),
            Error::PathEscape => "path escapes working directory".to_owned(),
            Error::NotFound => "file does not exist".to_owned(),
            Error::NotRegularFile => "not a regular file".to_owned(),
            Error::AlreadyExists => "backup already exists, refusing to overwrite".to_owned(),
            Error::IoFailure => "file operation failed".to_owned(),
        }
    }
}

} // verus!
