use vstd::prelude::*;
use vstd::string::StringSliceAdditionalSpecFns;
use crate::errors::{Error, NameRejection};

verus! {

/// Byte value of `/`.
pub const SLASH: u8 = 47;

/// Byte value of `\`.
pub const BACKSLASH: u8 = 92;

/// Byte value of `.`.
pub const DOT: u8 = 46;

/// A filename may hold only ASCII letters, digits, `.`, `_` and `-`.
pub open spec fn allowed_byte(b: u8) -> bool {
    ||| 65 <= b <= 90  // A-Z
    ||| 97 <= b <= 122  // a-z
    ||| 48 <= b <= 57  // 0-9
    ||| b == DOT
    ||| b == 95  // _
    ||| b == 45  // -
}

/// The byte at index `i` is a path separator (`/` or `\`).
pub open spec fn separator_at(s: Seq<u8>, i: int) -> bool {
    s[i] == SLASH || s[i] == BACKSLASH
}

/// The name holds a path separator.
pub open spec fn has_separator(s: Seq<u8>) -> bool {
    exists|i: int| 0 <= i < s.len() && #[trigger] separator_at(s, i)
}

/// The traversal token `..` starts at index `i`.
pub open spec fn traversal_at(s: Seq<u8>, i: int) -> bool {
    s[i] == DOT && s[i + 1] == DOT
}

/// The name holds the traversal token `..`.
pub open spec fn has_traversal(s: Seq<u8>) -> bool {
    exists|i: int| 0 <= i && i + 1 < s.len() && #[trigger] traversal_at(s, i)
}

/// Every byte of the name is drawn from the allowed set.
pub open spec fn all_bytes_allowed(s: Seq<u8>) -> bool {
    forall|i: int| 0 <= i < s.len() ==> allowed_byte(#[trigger] s[i])
}

/// Index of the last `.` in the name, or -1 if there is none.
pub open spec fn last_dot(s: Seq<u8>) -> int
    decreases s.len(),
{
    if s.len() == 0 {
        -1
    } else if s[s.len() - 1] == DOT {
        s.len() - 1
    } else {
        last_dot(s.drop_last())
    }
}

/// A name has an extension exactly when its last `.` is preceded by at least
/// one byte: a lone leading `.` marks a hidden file, not an extension.
pub open spec fn has_extension(s: Seq<u8>) -> bool {
    last_dot(s) >= 1
}

/// The bytes after the last `.`.
pub open spec fn extension_of(s: Seq<u8>) -> Seq<u8>
    recommends
        has_extension(s),
{
    s.subrange(last_dot(s) + 1, s.len() as int)
}

/// The fixed allow-list of extensions: `txt`, `log`, `md`.
pub open spec fn allowed_extension(e: Seq<u8>) -> bool {
    ||| e == seq![116u8, 120u8, 116u8]  // txt
    ||| e == seq![108u8, 111u8, 103u8]  // log
    ||| e == seq![109u8, 100u8]  // md
}

/// The validator's outcome on a raw name, checks applied in order with the
/// first failure winning: empty, over 255 bytes, separators, traversal
/// tokens, disallowed bytes, missing extension, extension not allowed.
pub open spec fn check_name(s: Seq<u8>) -> Option<NameRejection> {
    if s.len() == 0 {
        Some(NameRejection::Empty)
    } else if s.len() > 255 {
        Some(NameRejection::TooLong)
    } else if has_separator(s) {
        Some(NameRejection::Separator)
    } else if has_traversal(s) {
        Some(NameRejection::Traversal)
    } else if !all_bytes_allowed(s) {
        Some(NameRejection::BadByte)
    } else if !has_extension(s) {
        Some(NameRejection::MissingExtension)
    } else if !allowed_extension(extension_of(s)) {
        Some(NameRejection::ExtensionNotAllowed)
    } else {
        None
    }
}

/// A name the validator accepts.
pub open spec fn valid_name(s: Seq<u8>) -> bool {
    check_name(s) is None
}

proof fn lemma_last_dot_none(s: Seq<u8>)
    requires
        forall|k: int| 0 <= k < s.len() ==> s[k] != DOT,
    ensures
        last_dot(s) == -1,
    decreases s.len(),
{
    if s.len() > 0 {
        assert(forall|k: int| 0 <= k < s.drop_last().len() ==> s.drop_last()[k] != DOT);
        lemma_last_dot_none(s.drop_last());
    }
}

proof fn lemma_last_dot_at(s: Seq<u8>, d: int)
    requires
        0 <= d < s.len(),
        s[d] == DOT,
        forall|k: int| d < k < s.len() ==> s[k] != DOT,
    ensures
        last_dot(s) == d,
    decreases s.len(),
{
    if d < s.len() - 1 {
        assert(forall|k: int| d < k < s.drop_last().len() ==> s.drop_last()[k] != DOT);
        lemma_last_dot_at(s.drop_last(), d);
    }
}

fn byte_allowed(b: u8) -> (r: bool)
    ensures
        r == allowed_byte(b),
{
    (65 <= b && b <= 90) || (97 <= b && b <= 122) || (48 <= b && b <= 57) || b == DOT || b == 95
        || b == 45
}

/// Accept a raw filename or say exactly why it is refused. The checks run in
/// the order `check_name` gives; an accepted name comes back unchanged.
pub fn sanitize_filename(input: &str) -> (r: Result<String, Error>)
    ensures
        match check_name(input.spec_bytes()) {
            Some(why) => r == Err::<String, Error>(Error::InvalidName(why)),
            None => r matches Ok(name) && name@ == input@,
        },
        r is Ok <==> valid_name(input.spec_bytes()),
{
    let b: &[u8] = input.as_bytes();
    let ghost s: Seq<u8> = input.spec_bytes();
    let n: usize = b.len();
    if n == 0 {
        return Err(Error::InvalidName(NameRejection::Empty));
    }
    if n > 255 {
        return Err(Error::InvalidName(NameRejection::TooLong));
    }
    let mut i: usize = 0;
    while i < n
        invariant
            b@ == s,
            s == input.spec_bytes(),
            n == s.len(),
            1 <= n <= 255,
            i <= n,
            forall|k: int| 0 <= k < i ==> !(#[trigger] separator_at(s, k)),
        decreases n - i,
    {
        let c = b[i];
        if c == SLASH || c == BACKSLASH {
            proof {
                assert(separator_at(s, i as int));
            }
            return Err(Error::InvalidName(NameRejection::Separator));
        }
        i = i + 1;
    }
    assert(!has_separator(s));
    let mut i: usize = 0;
    while i + 1 < n
        invariant
            b@ == s,
            s == input.spec_bytes(),
            n == s.len(),
            1 <= n <= 255,
            i <= n,
            !has_separator(s),
            forall|k: int| 0 <= k < i ==> !(#[trigger] traversal_at(s, k)),
        decreases n - i,
    {
        if b[i] == DOT && b[i + 1] == DOT {
            proof {
                assert(traversal_at(s, i as int));
            }
            return Err(Error::InvalidName(NameRejection::Traversal));
        }
        i = i + 1;
    }
    assert(!has_traversal(s)) by {
        assert(forall|k: int| 0 <= k && k + 1 < s.len() ==> !(#[trigger] traversal_at(s, k)));
    }
    let mut i: usize = 0;
    while i < n
        invariant
            b@ == s,
            s == input.spec_bytes(),
            n == s.len(),
            1 <= n <= 255,
            i <= n,
            !has_separator(s),
            !has_traversal(s),
            forall|k: int| 0 <= k < i ==> allowed_byte(#[trigger] s[k]),
        decreases n - i,
    {
        if !byte_allowed(b[i]) {
            proof {
                assert(!allowed_byte(s[i as int]));
            }
            return Err(Error::InvalidName(NameRejection::BadByte));
        }
        i = i + 1;
    }
    assert(all_bytes_allowed(s));
    let mut i: usize = 0;
    let mut dot: usize = 0;
    let mut found: bool = false;
    while i < n
        invariant
            b@ == s,
            s == input.spec_bytes(),
            n == s.len(),
            i <= n,
            found ==> dot < i && s[dot as int] == DOT && (forall|k: int|
                dot < k < i ==> #[trigger] s[k] != DOT),
            !found ==> forall|k: int| 0 <= k < i ==> #[trigger] s[k] != DOT,
        decreases n - i,
    {
        if b[i] == DOT {
            dot = i;
            found = true;
        }
        i = i + 1;
    }
    if !found {
        proof {
            lemma_last_dot_none(s);
        }
        return Err(Error::InvalidName(NameRejection::MissingExtension));
    }
    proof {
        lemma_last_dot_at(s, dot as int);
    }
    if dot == 0 {
        return Err(Error::InvalidName(NameRejection::MissingExtension));
    }
    let ext_len = n - dot - 1;
    let ghost ext: Seq<u8> = extension_of(s);
    assert(ext.len() == ext_len);
    let accepted: bool = if ext_len == 3 {
        // txt or log
        (b[dot + 1] == 116 && b[dot + 2] == 120 && b[dot + 3] == 116) || (b[dot + 1] == 108 && b[dot
            + 2] == 111 && b[dot + 3] == 103)
    } else if ext_len == 2 {
        // md
        b[dot + 1] == 109 && b[dot + 2] == 100
    } else {
        false
    };
    proof {
        assert(forall|k: int| 0 <= k < ext.len() ==> #[trigger] ext[k] == s[dot + 1 + k]);
        if accepted {
            if ext_len == 3 {
                if s[dot + 1] == 116 {
                    assert(ext =~= seq![116u8, 120u8, 116u8]);
                } else {
                    assert(ext =~= seq![108u8, 111u8, 103u8]);
                }
            } else {
                assert(ext =~= seq![109u8, 100u8]);
            }
        } else {
            assert(!(ext == seq![116u8, 120u8, 116u8])) by {
                if ext == seq![116u8, 120u8, 116u8] {
                    assert(ext.len() == 3);
                    assert(ext[0] == 116u8 && ext[1] == 120u8 && ext[2] == 116u8);
                }
            }
            assert(!(ext == seq![108u8, 111u8, 103u8])) by {
                if ext == seq![108u8, 111u8, 103u8] {
                    assert(ext.len() == 3);
                    assert(ext[0] == 108u8 && ext[1] == 111u8 && ext[2] == 103u8);
                }
            }
            assert(!(ext == seq![109u8, 100u8])) by {
                if ext == seq![109u8, 100u8] {
                    assert(ext.len() == 2);
                    assert(ext[0] == 109u8 && ext[1] == 100u8);
                }
            }
        }
    }
    if !accepted {
        return Err(Error::InvalidName(NameRejection::ExtensionNotAllowed));
    }
    Ok(input.to_owned())
}

/// A validated filename. Constructing one through `Filename::new` is the only
/// way to obtain it, so no raw string ever reaches a file operation.
#[derive(Debug, Clone)]
pub struct Filename {
    name: String,
}

impl View for Filename {
    type V = Seq<char>;

    closed spec fn view(&self) -> Seq<char> {
        self.name@
    }
}

impl Filename {
    /// The validator accepted the characters this name is made of.
    pub open spec fn wf(&self) -> bool {
        valid_name(vstd::utf8::encode_utf8(self@))
    }

    /// Validate a raw name; an accepted one is fixed from then on.
    pub fn new(raw: &str) -> (r: Result<Filename, Error>)
        ensures
            match check_name(raw.spec_bytes()) {
                Some(why) => r == Err::<Filename, Error>(Error::InvalidName(why)),
                None => r matches Ok(f) && f@ == raw@ && f.wf(),
            },
    {
        match sanitize_filename(raw) {
            Ok(name) => Ok(Filename { name }),
            Err(e) => Err(e),
        }
    }

    /// The validated name itself.
    pub fn as_str(&self) -> (r: &str)
        ensures
            r@ == self@,
    {
        self.name.as_str()
    }

    /// The path of this name's backup artifact: the name with `.bak` behind it.
    pub fn bak_name(&self) -> (r: String)
        ensures
            r@ == self@ + ".bak"@,
    {
        self.name.clone().concat(".bak")
    }

    /// The path of the transient file a restore writes first: the name with
    /// `.tmp` behind it.
    pub fn tmp_name(&self) -> (r: String)
        ensures
            r@ == self@ + ".tmp"@,
    {
        self.name.clone().concat(".tmp")
    }
}

} // verus!
