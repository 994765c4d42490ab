//! Command-name analysis: whether a name already carries an explicit
//! extension.

use vstd::prelude::*;
use vstd::string::StrSliceExecFns;

verus! {

/// The final path segment is the parent-directory marker `..`, which names
/// no file of its own and so can carry no extension.
pub open spec fn spec_final_parent_segment(s: Seq<char>) -> bool {
    &&& s.len() >= 2
    &&& s[s.len() - 1] == '.'
    &&& s[s.len() - 2] == '.'
    &&& (s.len() == 2 || s[s.len() - 3] == '/')
}

/// A command name carries an explicit extension when its final path segment
/// holds a dot after the segment's first character: there is a dot that no
/// separator follows, and the character right before it is not a separator.
/// A final segment that is the parent-directory marker names no file and
/// carries none.
pub open spec fn spec_has_extension(s: Seq<char>) -> bool {
    !spec_final_parent_segment(s) && (exists|i: int|
        #![trigger s[i]]
        0 < i < s.len() && s[i] == '.' && s[i - 1] != '/' && (forall|j: int|
            i < j < s.len() ==> s[j] != '/'))
}

/// Decides whether the command name already carries an explicit extension.
pub fn has_explicit_extension(command: &str) -> (r: bool)
    ensures
        r == spec_has_extension(command@),
{
    let ghost s = command@;
    let n = command.unicode_len();
    if n >= 2 && command.get_char(n - 1) == '.' && command.get_char(n - 2) == '.' && (n == 2
        || command.get_char(n - 3) == '/') {
        return false;
    }
    let mut p = n;
    while p > 1
        invariant
            s == command@,
            n == s.len(),
            p <= n,
            !spec_final_parent_segment(s),
            forall|i: int| p <= i < n ==> s[i] != '.' && s[i] != '/',
        decreases p,
    {
        p = p - 1;
        let c = command.get_char(p);
        if c == '/' {
            proof {
                if spec_has_extension(s) {
                    let i = choose|i: int|
                        #![trigger s[i]]
                        0 < i < s.len() && s[i] == '.' && s[i - 1] != '/' && (forall|j: int|
                            i < j < s.len() ==> s[j] != '/');
                    if i < p {
                        assert(s[p as int] != '/');
                    } else if i == p {
                        assert(s[i] == '.');
                    } else {
                        assert(s[i] != '.');
                    }
                }
            }
            return false;
        }
        if c == '.' {
            let prev = command.get_char(p - 1);
            if prev != '/' {
                proof {
                    assert(0 < p < s.len() && s[p as int] == '.' && s[p as int - 1] != '/'
                        && (forall|j: int| p < j < s.len() ==> s[j] != '/'));
                }
                return true;
            } else {
                proof {
                    if spec_has_extension(s) {
                        let i = choose|i: int|
                            #![trigger s[i]]
                            0 < i < s.len() && s[i] == '.' && s[i - 1] != '/' && (forall|j: int|
                                i < j < s.len() ==> s[j] != '/');
                        if i < p - 1 {
                            assert(s[p as int - 1] != '/');
                        } else if i == p - 1 {
                            assert(s[i] == '.');
                        } else if i == p {
                            assert(s[i - 1] != '/');
                        } else {
                            assert(s[i] != '.');
                        }
                    }
                }
                return false;
            }
        }
    }
    proof {
        if spec_has_extension(s) {
            let i = choose|i: int|
                #![trigger s[i]]
                0 < i < s.len() && s[i] == '.' && s[i - 1] != '/' && (forall|j: int|
                    i < j < s.len() ==> s[j] != '/');
            assert(s[i] != '.');
        }
    }
    false
}

} // verus!
