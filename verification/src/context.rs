//! Restricted-context detection: classifying the canonical working-directory
//! path as a locally mounted drive or as a restricted (network-style)
//! location.  The local-drive shape encodes a host-OS convention, so the
//! mount prefix is a parameter of the classification; the default prefix
//! stands in one place below.

use vstd::prelude::*;
use vstd::string::StrSliceExecFns;

verus! {

/// The execution context computed once per invocation: whether the current
/// working directory is a restricted (network-mounted) location.
pub struct ExecutionContext {
    pub is_restricted: bool,
}

/// An ASCII letter, the only character accepted as a drive letter.
pub open spec fn spec_ascii_letter(c: char) -> bool {
    (97 <= c as u32 && c as u32 <= 122) || (65 <= c as u32 && c as u32 <= 90)
}

/// The default local mount prefix of the host environment.
pub open spec fn spec_local_mount_prefix() -> Seq<char> {
    "/mnt/"@
}

/// The shape of a working directory that sits on a locally mounted drive,
/// for a given mount prefix: the prefix, a single drive letter, and a
/// separator right after it (`<prefix><letter>/...`).
pub open spec fn spec_local_drive_path_with(prefix: Seq<char>, s: Seq<char>) -> bool {
    &&& s.len() >= prefix.len() + 2
    &&& s.subrange(0, prefix.len() as int) == prefix
    &&& spec_ascii_letter(s[prefix.len() as int])
    &&& s[prefix.len() as int + 1] == '/'
}

/// The local-drive shape under the default mount prefix.
pub open spec fn spec_local_drive_path(s: Seq<char>) -> bool {
    spec_local_drive_path_with(spec_local_mount_prefix(), s)
}

/// A path is restricted exactly when it does not match the local-drive
/// shape under the default mount prefix.
pub open spec fn spec_restricted_path(s: Seq<char>) -> bool {
    !spec_local_drive_path(s)
}

/// Decides whether `c` is an ASCII letter.
pub fn ascii_letter(c: char) -> (r: bool)
    ensures
        r == spec_ascii_letter(c),
{
    let u = c as u32;
    (97 <= u && u <= 122) || (65 <= u && u <= 90)
}

/// The default local mount prefix.  Callers on a host with another
/// convention hand their own prefix to `from_working_dir_with` instead.
pub fn local_mount_prefix() -> (p: &'static str)
    ensures
        p@ == spec_local_mount_prefix(),
{
    "/mnt/"
}

impl ExecutionContext {
    /// The conservative fallback used when the working directory cannot be
    /// determined at all: fail closed and treat the context as restricted.
    pub fn restricted() -> (ctx: ExecutionContext)
        ensures
            ctx.is_restricted,
    {
        ExecutionContext { is_restricted: true }
    }

    /// Classifies the canonical working-directory path against a
    /// caller-chosen local mount prefix: restricted unless the path is that
    /// prefix, a single drive letter, and a separator.
    pub fn from_working_dir_with(prefix: &str, path: &str) -> (ctx: ExecutionContext)
        ensures
            ctx.is_restricted == !spec_local_drive_path_with(prefix@, path@),
    {
        let m = prefix.unicode_len();
        let n = path.unicode_len();
        if n < 2 || m > n - 2 {
            return ExecutionContext { is_restricted: true };
        }
        let mut j: usize = 0;
        while j < m
            invariant
                m == prefix@.len(),
                n == path@.len(),
                2 <= n,
                m <= n - 2,
                j <= m,
                forall|k: int| 0 <= k < j ==> path@[k] == prefix@[k],
            decreases m - j,
        {
            if path.get_char(j) != prefix.get_char(j) {
                proof {
                    assert(path@.subrange(0, m as int)[j as int] == path@[j as int]);
                }
                return ExecutionContext { is_restricted: true };
            }
            j += 1;
        }
        proof {
            assert(path@.subrange(0, m as int) =~= prefix@);
        }
        let local = ascii_letter(path.get_char(m)) && path.get_char(m + 1) == '/';
        ExecutionContext { is_restricted: !local }
    }

    /// Classifies the canonical working-directory path under the default
    /// mount prefix: restricted unless it matches the
    /// locally-mounted-drive shape.
    pub fn from_working_dir(path: &str) -> (ctx: ExecutionContext)
        ensures
            ctx.is_restricted == spec_restricted_path(path@),
    {
        ExecutionContext::from_working_dir_with(local_mount_prefix(), path)
    }
}

} // verus!
