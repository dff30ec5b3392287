use vstd::prelude::*;
use crate::errors::Error;

verus! {

/// What one path in the working directory holds.
pub enum Entry {
    /// Nothing exists at the path.
    Missing,
    /// A regular file with these bytes.
    File(Vec<u8>),
    /// Something that exists but is not a regular file.
    NonFile,
}

/// `Entry` as the specifications see it.
pub enum EntryModel {
    Missing,
    File(Seq<u8>),
    NonFile,
}

impl View for Entry {
    type V = EntryModel;

    open spec fn view(&self) -> EntryModel {
        match self {
            Entry::Missing => EntryModel::Missing,
            Entry::File(content) => EntryModel::File(content@),
            Entry::NonFile => EntryModel::NonFile,
        }
    }
}

/// The three paths an operation on one validated filename may touch: the file
/// itself, its `.bak` artifact, and the transient `.tmp` file.
pub struct FileSpace {
    pub main: Entry,
    pub bak: Entry,
    pub tmp: Entry,
}

/// `FileSpace` as the specifications see it.
pub struct FileSpaceModel {
    pub main: EntryModel,
    pub bak: EntryModel,
    pub tmp: EntryModel,
}

impl View for FileSpace {
    type V = FileSpaceModel;

    open spec fn view(&self) -> FileSpaceModel {
        FileSpaceModel { main: self.main@, bak: self.bak@, tmp: self.tmp@ }
    }
}

/// A backup may run: the file exists as a regular file and no backup artifact
/// stands in the way. Backups are never overwritten.
pub open spec fn backup_enabled(fs: FileSpaceModel) -> bool {
    fs.main is File && fs.bak is Missing
}

/// Why a backup is refused, first reason first: a missing source, a source
/// that is no regular file, an existing backup artifact.
pub open spec fn backup_denial(fs: FileSpaceModel) -> Error {
    if fs.main is Missing {
        Error::NotFound
    } else if fs.main is NonFile {
        Error::NotRegularFile
    } else {
        Error::AlreadyExists
    }
}

/// After a backup the artifact holds exactly the bytes of the file; nothing
/// else moves.
pub open spec fn backup_outcome(fs: FileSpaceModel) -> FileSpaceModel {
    FileSpaceModel { bak: EntryModel::File(fs.main->0), ..fs }
}

/// A restore may run: the backup artifact exists as a regular file and the
/// `.tmp` slot is free for the exclusive create.
pub open spec fn restore_enabled(fs: FileSpaceModel) -> bool {
    fs.bak is File && fs.tmp is Missing
}

/// Why a restore is refused, first reason first: a missing backup, a backup
/// that is no regular file, an occupied `.tmp` slot.
pub open spec fn restore_denial(fs: FileSpaceModel) -> Error {
    if fs.bak is Missing {
        Error::NotFound
    } else if fs.bak is NonFile {
        Error::NotRegularFile
    } else {
        Error::IoFailure
    }
}

/// After a restore the file holds exactly the bytes of the backup artifact,
/// the artifact is kept, and no `.tmp` file remains.
pub open spec fn restore_outcome(fs: FileSpaceModel) -> FileSpaceModel {
    FileSpaceModel { main: EntryModel::File(fs.bak->0), tmp: EntryModel::Missing, ..fs }
}

/// A secure delete may run: the file exists as a regular file.
pub open spec fn delete_enabled(fs: FileSpaceModel) -> bool {
    fs.main is File
}

/// Why a secure delete is refused.
pub open spec fn delete_denial(fs: FileSpaceModel) -> Error {
    if fs.main is Missing {
        Error::NotFound
    } else {
        Error::NotRegularFile
    }
}

/// A sequence of `n` zero bytes.
pub open spec fn zeros(n: nat) -> Seq<u8> {
    Seq::new(n, |i: int| 0u8)
}

/// After the overwrite pass the file still exists and holds as many zero
/// bytes as it held bytes before.
pub open spec fn overwrite_outcome(fs: FileSpaceModel) -> FileSpaceModel {
    FileSpaceModel { main: EntryModel::File(zeros(fs.main->0.len())), ..fs }
}

/// After the removal the file is gone; nothing else moves.
pub open spec fn delete_outcome(fs: FileSpaceModel) -> FileSpaceModel {
    FileSpaceModel { main: EntryModel::Missing, ..fs }
}

/// Byte-exact copy, the model of the stream copy a transfer performs.
fn copy_bytes(src: &Vec<u8>) -> (dst: Vec<u8>)
    ensures
        dst@ == src@,
{
    let mut dst: Vec<u8> = Vec::new();
    let mut i: usize = 0;
    while i < src.len()
        invariant
            i <= src@.len(),
            dst@ == src@.subrange(0, i as int),
        decreases src@.len() - i,
    {
        dst.push(src[i]);
        i = i + 1;
        proof {
            assert(dst@ =~= src@.subrange(0, i as int));
        }
    }
    proof {
        assert(dst@ =~= src@);
    }
    dst
}

/// How many bytes the next overwrite chunk holds: a full 8 KiB block, or
/// whatever remains. Chunking bounds peak memory to one block whatever the
/// file's size.
pub fn chunk_len(len: u64, written: u64) -> (n: usize)
    requires
        written < len,
    ensures
        n == if len - written < 8192 { (len - written) as int } else { 8192int },
        1 <= n <= 8192,
{
    let remaining = len - written;
    if remaining < 8192 {
        remaining as usize
    } else {
        8192
    }
}

/// Produce `len` zero bytes, one bounded chunk at a time, as the overwrite
/// pass writes them.
fn zero_block(len: usize) -> (v: Vec<u8>)
    ensures
        v@ == zeros(len as nat),
{
    let mut v: Vec<u8> = Vec::new();
    while v.len() < len
        invariant
            v@ == zeros(v.len() as nat),
            v@.len() <= len,
        decreases len - v@.len(),
    {
        let n = chunk_len(len as u64, v.len() as u64);
        let ghost before: nat = v@.len();
        let mut k: usize = 0;
        while k < n
            invariant
                k <= n,
                v@.len() == before + k,
                before + n <= len,
                v@ == zeros(v.len() as nat),
            decreases n - k,
        {
            v.push(0u8);
            k = k + 1;
            proof {
                assert(v@ =~= zeros(v.len() as nat));
            }
        }
    }
    v
}

/// Back the file up: copy its bytes into a freshly created `.bak` artifact,
/// refusing to touch an artifact that already exists.
pub fn backup(fs: &mut FileSpace) -> (r: Result<(), Error>)
    ensures
        r is Ok <==> backup_enabled(old(fs)@),
        r is Ok ==> final(fs)@ == backup_outcome(old(fs)@),
        r is Err ==> final(fs)@ == old(fs)@ && r == Err::<(), Error>(backup_denial(old(fs)@)),
{
    let src = match &fs.main {
        Entry::Missing => {
            return Err(Error::NotFound);
        },
        Entry::NonFile => {
            return Err(Error::NotRegularFile);
        },
        Entry::File(content) => content,
    };
    match &fs.bak {
        Entry::Missing => {},
        _ => {
            return Err(Error::AlreadyExists);
        },
    }
    let copied = copy_bytes(src);
    fs.bak = Entry::File(copied);
    Ok(())
}

/// One restore attempt against a filesystem whose rename may fail. The bytes
/// of the backup go into a freshly created `.tmp` file first; only the atomic
/// rename publishes them. A failed rename removes the `.tmp` file and leaves
/// everything as it was — the file itself is never half written.
pub fn restore_attempt(fs: &mut FileSpace, rename_ok: bool) -> (r: Result<(), Error>)
    ensures
        r is Ok <==> restore_enabled(old(fs)@) && rename_ok,
        r is Ok ==> final(fs)@ == restore_outcome(old(fs)@),
        r is Err ==> final(fs)@ == old(fs)@,
        !restore_enabled(old(fs)@) ==> r == Err::<(), Error>(restore_denial(old(fs)@)),
        restore_enabled(old(fs)@) && !rename_ok ==> r == Err::<(), Error>(Error::IoFailure),
{
    let src = match &fs.bak {
        Entry::Missing => {
            return Err(Error::NotFound);
        },
        Entry::NonFile => {
            return Err(Error::NotRegularFile);
        },
        Entry::File(content) => content,
    };
    match &fs.tmp {
        Entry::Missing => {},
        _ => {
            return Err(Error::IoFailure);
        },
    }
    let copied = copy_bytes(src);
    fs.tmp = Entry::File(copied);
    if rename_ok {
        let mut staged = Entry::Missing;
        core::mem::swap(&mut staged, &mut fs.tmp);
        fs.main = staged;
        Ok(())
    } else {
        fs.tmp = Entry::Missing;
        Err(Error::IoFailure)
    }
}

/// Restore the file from its `.bak` artifact through a fresh `.tmp` file and
/// an atomic rename.
pub fn restore(fs: &mut FileSpace) -> (r: Result<(), Error>)
    ensures
        r is Ok <==> restore_enabled(old(fs)@),
        r is Ok ==> final(fs)@ == restore_outcome(old(fs)@),
        r is Err ==> final(fs)@ == old(fs)@ && r == Err::<(), Error>(restore_denial(old(fs)@)),
{
    restore_attempt(fs, true)
}

/// The overwrite pass of a secure delete: every byte of the file is replaced
/// by zero, in bounded chunks, before anything is removed. Returns how many
/// bytes were overwritten. Overwriting is best effort on storage that does
/// not write in place.
pub fn overwrite_with_zeros(fs: &mut FileSpace) -> (r: Result<usize, Error>)
    ensures
        r is Ok <==> delete_enabled(old(fs)@),
        r matches Ok(n) ==> n == old(fs)@.main->0.len() && final(fs)@ == overwrite_outcome(
            old(fs)@,
        ),
        r is Err ==> final(fs)@ == old(fs)@ && r == Err::<usize, Error>(delete_denial(old(fs)@)),
{
    let len = match &fs.main {
        Entry::Missing => {
            return Err(Error::NotFound);
        },
        Entry::NonFile => {
            return Err(Error::NotRegularFile);
        },
        Entry::File(content) => content.len(),
    };
    let zeroed = zero_block(len);
    fs.main = Entry::File(zeroed);
    Ok(len)
}

/// Secure delete: overwrite the file's bytes with zeros, then remove it.
pub fn delete(fs: &mut FileSpace) -> (r: Result<(), Error>)
    ensures
        r is Ok <==> delete_enabled(old(fs)@),
        r is Ok ==> final(fs)@ == delete_outcome(old(fs)@),
        r is Err ==> final(fs)@ == old(fs)@ && r == Err::<(), Error>(delete_denial(old(fs)@)),
{
    match overwrite_with_zeros(fs) {
        Ok(_) => {
            fs.main = Entry::Missing;
            Ok(())
        },
        Err(e) => Err(e),
    }
}

/// The order a backup checks its preconditions in, on what the filesystem
/// reports: a missing source first, then a source that is no regular file,
/// then an existing backup artifact.
pub fn backup_decision(src_exists: bool, src_is_file: bool, bak_exists: bool) -> (r: Result<
    (),
    Error,
>)
    ensures
        r is Ok <==> src_exists && src_is_file && !bak_exists,
        !src_exists ==> r == Err::<(), Error>(Error::NotFound),
        src_exists && !src_is_file ==> r == Err::<(), Error>(Error::NotRegularFile),
        src_exists && src_is_file && bak_exists ==> r == Err::<(), Error>(Error::AlreadyExists),
{
    if !src_exists {
        Err(Error::NotFound)
    } else if !src_is_file {
        Err(Error::NotRegularFile)
    } else if bak_exists {
        Err(Error::AlreadyExists)
    } else {
        Ok(())
    }
}

/// The order a restore checks its preconditions in, on what the filesystem
/// reports about the backup artifact.
pub fn restore_decision(bak_exists: bool, bak_is_file: bool) -> (r: Result<(), Error>)
    ensures
        r is Ok <==> bak_exists && bak_is_file,
        !bak_exists ==> r == Err::<(), Error>(Error::NotFound),
        bak_exists && !bak_is_file ==> r == Err::<(), Error>(Error::NotRegularFile),
{
    if !bak_exists {
        Err(Error::NotFound)
    } else if !bak_is_file {
        Err(Error::NotRegularFile)
    } else {
        Ok(())
    }
}

/// The order a secure delete checks its preconditions in, on what the
/// filesystem reports.
pub fn delete_decision(exists: bool, is_file: bool) -> (r: Result<(), Error>)
    ensures
        r is Ok <==> exists && is_file,
        !exists ==> r == Err::<(), Error>(Error::NotFound),
        exists && !is_file ==> r == Err::<(), Error>(Error::NotRegularFile),
{
    if !exists {
        Err(Error::NotFound)
    } else if !is_file {
        Err(Error::NotRegularFile)
    } else {
        Ok(())
    }
}

} // verus!
