use vstd::prelude::*;
use vstd::string::{StringSliceAdditionalSpecFns, StringExecFns};
use crate::errors::Error;
use crate::validate::SLASH;

verus! {

/// The candidate path a relative name resolves to under a base directory: an
/// absolute name replaces the base outright, as joining does on a filesystem;
/// any other name goes below the base.
pub open spec fn joined_path(base: Seq<u8>, name: Seq<u8>) -> Seq<u8> {
    if name.len() > 0 && name[0] == SLASH {
        name
    } else {
        base + seq![SLASH] + name
    }
}

fn push_all(dst: &mut Vec<u8>, src: &[u8])
    ensures
        final(dst)@ == old(dst)@ + src@,
{
    let mut i: usize = 0;
    while i < src.len()
        invariant
            i <= src@.len(),
            dst@ == old(dst)@ + src@.subrange(0, i as int),
        decreases src@.len() - i,
    {
        dst.push(src[i]);
        i = i + 1;
        proof {
            assert(dst@ =~= old(dst)@ + src@.subrange(0, i as int));
        }
    }
    proof {
        assert(dst@ =~= old(dst)@ + src@);
    }
}

fn join_under(base: &str, name: &str) -> (c: Vec<u8>)
    ensures
        c@ == joined_path(base.spec_bytes(), name.spec_bytes()),
{
    let nb: &[u8] = name.as_bytes();
    let mut c: Vec<u8> = Vec::new();
    if nb.len() > 0 && nb[0] == SLASH {
        push_all(&mut c, nb);
        proof {
            assert(c@ =~= joined_path(base.spec_bytes(), name.spec_bytes()));
        }
    } else {
        push_all(&mut c, base.as_bytes());
        c.push(SLASH);
        push_all(&mut c, nb);
        proof {
            assert(c@ =~= joined_path(base.spec_bytes(), name.spec_bytes()));
        }
    }
    c
}

fn starts_with_bytes(full: &[u8], prefix: &[u8]) -> (r: bool)
    ensures
        r == prefix@.is_prefix_of(full@),
{
    if prefix.len() > full.len() {
        return false;
    }
    let mut i: usize = 0;
    while i < prefix.len()
        invariant
            i <= prefix@.len(),
            prefix@.len() <= full@.len(),
            forall|k: int| 0 <= k < i ==> prefix@[k] == full@[k],
        decreases prefix@.len() - i,
    {
        if prefix[i] != full[i] {
            return false;
        }
        i = i + 1;
    }
    proof {
        assert(prefix@ =~= full@.subrange(0, prefix@.len() as int));
    }
    true
}

/// Defense in depth behind the validator: join the base directory with the
/// name and demand that the result still lies under the base. A name without
/// separators always passes; an absolute name that leaves the base does not.
/// The caller hands in the canonical form of the working directory.
pub fn within_cwd(base: &str, name: &str) -> (r: Result<(), Error>)
    ensures
        r is Ok <==> base.spec_bytes().is_prefix_of(
            joined_path(base.spec_bytes(), name.spec_bytes()),
        ),
        r is Err ==> r == Err::<(), Error>(Error::PathEscape),
{
    let candidate = join_under(base, name);
    if starts_with_bytes(candidate.as_slice(), base.as_bytes()) {
        Ok(())
    } else {
        Err(Error::PathEscape)
    }
}

/// Every name the validator accepts stays under the base: such a name has no
/// separator, so its candidate path is the base extended below.
pub proof fn lemma_validated_name_contained(base: Seq<u8>, name: Seq<u8>)
    requires
        !crate::validate::has_separator(name),
    ensures
        base.is_prefix_of(joined_path(base, name)),
{
    if name.len() > 0 && name[0] == SLASH {
        assert(crate::validate::separator_at(name, 0));
        assert(false);
    }
    assert(base =~= (base + seq![SLASH] + name).subrange(0, base.len() as int));
}

/// The audit log sits directly in the working directory.
pub fn logfile_path(base: &str) -> (r: String)
    ensures
        r@ == base@ + "/logfile.txt"@,
{
    String::from_str(base).concat("/logfile.txt")
}

} // verus!
