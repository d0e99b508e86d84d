//! Path composition: identity safety, directory resolution, the
//! `<directory>/<identity>.toml` join rule, and extension matching for the
//! bulk-load file filter.

use vstd::prelude::*;

verus! {

/// Characters that may not appear in an identity: path separators, the
/// extension dot, and characters the filesystem reserves.
pub open spec fn is_reserved_char(c: char) -> bool {
    c == '/' || c == '\\' || c == '.' || c == ':' || c == '\u{0}'
}

/// An identity is safe to use as a single path component: it is nonempty and
/// holds no separator, no dot and no reserved character, so joining it under a
/// directory and appending `.toml` names exactly one file of that directory.
pub open spec fn is_path_safe(s: Seq<char>) -> bool {
    s.len() > 0 && (forall|i: int| 0 <= i < s.len() ==> !is_reserved_char(#[trigger] s[i]))
}

/// Decides `is_path_safe` for a string.
pub fn check_path_safe(s: &str) -> (r: bool)
    ensures
        r == is_path_safe(s@),
{
    let n = s.unicode_len();
    if n == 0 {
        return false;
    }
    let mut i: usize = 0;
    while i < n
        invariant
            n == s@.len(),
            i <= n,
            forall|j: int| 0 <= j < i ==> !is_reserved_char(#[trigger] s@[j]),
        decreases n - i,
    {
        let c = s.get_char(i);
        if c == '/' || c == '\\' || c == '.' || c == ':' || c == '\u{0}' {
            return false;
        }
        i += 1;
    }
    true
}

/// The file name a stored value uses: its identity with the fixed extension.
pub open spec fn file_name_for(identity: Seq<char>) -> Seq<char> {
    identity + ".toml"@
}

/// The full path of a stored value: `<directory>/<identity>.toml`.
pub open spec fn joined_path(dir: Seq<char>, identity: Seq<char>) -> Seq<char> {
    dir + "/"@ + file_name_for(identity)
}

/// Composes the path of a stored value from its directory and its identity.
pub fn join_path(dir: &str, identity: &str) -> (r: String)
    ensures
        r@ == joined_path(dir@, identity@),
{
    let mut r = dir.to_owned();
    r.append("/");
    r.append(identity);
    r.append(".toml");
    proof {
        assert(r@ =~= joined_path(dir@, identity@));
    }
    r
}

/// Whether a file name carries the extension `toml`, exactly as the platform
/// reads extensions: the name ends in `.toml` and that dot is not the leading
/// character (a bare `.toml` is a hidden file without an extension).
pub open spec fn has_toml_extension(name: Seq<char>) -> bool {
    name.len() >= 6 && name.subrange(name.len() - 5, name.len() as int) == ".toml"@
}

/// Decides `has_toml_extension` for a file name. The comparison is exact and
/// case sensitive.
pub fn is_toml_file(name: &str) -> (r: bool)
    ensures
        r == has_toml_extension(name@),
{
    proof {
        reveal_strlit(".toml");
    }
    let n = name.unicode_len();
    if n < 6 {
        return false;
    }
    let r = name.get_char(n - 5) == '.' && name.get_char(n - 4) == 't' && name.get_char(n - 3)
        == 'o' && name.get_char(n - 2) == 'm' && name.get_char(n - 1) == 'l';
    proof {
        let l = name@.len() as int;
        let sub = name@.subrange(l - 5, l);
        if r {
            assert(sub =~= ".toml"@);
        } else {
            assert(sub != ".toml"@) by {
                if sub == ".toml"@ {
                    assert(name@[l - 5] == sub[0] && name@[l - 4] == sub[1] && name@[l - 3]
                        == sub[2] && name@[l - 2] == sub[3] && name@[l - 1] == sub[4]);
                }
            }
        }
    }
    r
}

/// A path-safe identity's file name always carries the `toml` extension, so a
/// bulk load's filter keeps every file the store itself wrote.
pub proof fn lemma_file_name_has_toml_extension(identity: Seq<char>)
    requires
        is_path_safe(identity),
    ensures
        has_toml_extension(file_name_for(identity)),
{
    reveal_strlit(".toml");
    assert(file_name_for(identity).subrange(
        file_name_for(identity).len() - 5,
        file_name_for(identity).len() as int,
    ) =~= ".toml"@);
}

/// How the directory that holds a type's files is found.
pub enum DirPolicy {
    /// Nest the directory name under the per-user application-data root:
    /// `<home>/.local/share/<name>`. The home path is handed in by the caller,
    /// which reads it from the environment.
    DataRoot { home: String },
    /// The directory name is itself the directory path, used as given.
    Direct,
}

/// The directory a policy resolves a directory name to.
pub open spec fn resolved_dir(policy: DirPolicy, dir_name: Seq<char>) -> Seq<char> {
    match policy {
        DirPolicy::DataRoot { home } => home@ + "/.local/share/"@ + dir_name,
        DirPolicy::Direct => dir_name,
    }
}

/// Resolves a directory name to the directory that holds a type's files.
/// Resolution is pure: creating the directory is the caller's step.
pub fn resolve_dir(policy: &DirPolicy, dir_name: &str) -> (r: String)
    ensures
        r@ == resolved_dir(*policy, dir_name@),
{
    match policy {
        DirPolicy::DataRoot { home } => {
            let mut r = home.as_str().to_owned();
            r.append("/.local/share/");
            r.append(dir_name);
            proof {
                assert(r@ =~= resolved_dir(*policy, dir_name@));
            }
            r
        },
        DirPolicy::Direct => dir_name.to_owned(),
    }
}

} // verus!
