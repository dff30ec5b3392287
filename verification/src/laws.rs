use vstd::prelude::*;
use crate::engine::{
    backup_enabled, backup_denial, backup_outcome, restore_enabled, restore_denial,
    restore_outcome, delete_enabled, overwrite_outcome, delete_outcome, zeros, EntryModel,
    FileSpaceModel,
};
use crate::errors::Error;
use crate::validate::{
    check_name, has_separator, has_traversal, has_extension, extension_of, allowed_extension,
};

verus! {

/// Law: a name holding a path separator or a traversal token is rejected by
/// the validator, whatever else it holds.
pub proof fn lemma_separator_or_traversal_rejected(s: Seq<u8>)
    requires
        has_separator(s) || has_traversal(s),
    ensures
        check_name(s) is Some,
{
}

/// Law: a name longer than 255 bytes, or one without an extension from the
/// allow-list, is rejected by the validator.
pub proof fn lemma_long_or_wrong_extension_rejected(s: Seq<u8>)
    requires
        s.len() > 255 || !has_extension(s) || !allowed_extension(extension_of(s)),
    ensures
        check_name(s) is Some,
{
}

/// Law: a backup followed at once by a restore, with nothing moved in
/// between, reproduces the file byte for byte, and the artifact survives.
pub proof fn lemma_backup_then_restore_round_trip(fs: FileSpaceModel)
    requires
        backup_enabled(fs),
        fs.tmp is Missing,
    ensures
        restore_enabled(backup_outcome(fs)),
        restore_outcome(backup_outcome(fs)).main == fs.main,
        restore_outcome(backup_outcome(fs)).bak == backup_outcome(fs).bak,
        restore_outcome(backup_outcome(fs)).tmp is Missing,
{
}

/// Law: a second backup of the same name, with the artifact still in place,
/// is refused as a collision, so the first artifact is never overwritten.
pub proof fn lemma_second_backup_rejected(fs: FileSpaceModel)
    requires
        backup_enabled(fs),
    ensures
        !backup_enabled(backup_outcome(fs)),
        backup_denial(backup_outcome(fs)) == Error::AlreadyExists,
        backup_outcome(fs).bak == EntryModel::File(fs.main->0),
{
}

/// Law: a secure delete first overwrites exactly as many bytes as the file
/// holds with zeros, then removes it; the artifact and `.tmp` slots never
/// move.
pub proof fn lemma_secure_delete_effect(fs: FileSpaceModel)
    requires
        delete_enabled(fs),
    ensures
        overwrite_outcome(fs).main == EntryModel::File(zeros(fs.main->0.len())),
        delete_enabled(overwrite_outcome(fs)),
        delete_outcome(overwrite_outcome(fs)).main is Missing,
        delete_outcome(overwrite_outcome(fs)).bak == fs.bak,
        delete_outcome(overwrite_outcome(fs)).tmp == fs.tmp,
{
}

/// Law: a restore without a backup artifact is refused as not found, and
/// since every refused restore leaves the state untouched, it creates no
/// `.tmp` file.
pub proof fn lemma_restore_without_backup_rejected(fs: FileSpaceModel)
    requires
        fs.bak is Missing,
    ensures
        !restore_enabled(fs),
        restore_denial(fs) == Error::NotFound,
{
}

} // verus!
