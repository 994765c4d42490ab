//! Exit-code mapping: converting the child's reported termination status
//! into this process's own exit code.

use vstd::prelude::*;

verus! {

/// Maps the child's reported status code to this process's exit code.  A
/// child that reports a code gets it mirrored modulo 256 — in particular a
/// code already in `0..=255` is mirrored exactly — and a child whose
/// platform cannot report a numeric code (abnormal termination) gets the
/// fixed default of 1.
pub fn exit_code_from_status(code: Option<i32>) -> (r: u8)
    ensures
        code is None ==> r == 1,
        code matches Some(k) ==> r as int == (k as int) % 256,
        code matches Some(k) ==> (0 <= k <= 255 ==> r as int == k as int),
{
    match code {
        None => 1,
        Some(k) => {
            let m: i32 = k % 256;
            if m < 0 {
                (m + 256) as u8
            } else {
                m as u8
            }
        },
    }
}

} // verus!
