//! Host-string checks for the C boundary.
//!
//! The foreign engine takes text as zero-terminated byte strings.  A host
//! string holding an interior zero byte has no such representation: sending
//! it would silently truncate.  The check here fails before anything crosses
//! the boundary, as the error taxonomy demands of encoding errors.

use vstd::prelude::*;
use vstd::string::StringExecFns;
use vstd::string::StringSliceAdditionalSpecFns;

verus! {

/// Whether a byte string holds an interior zero byte, the terminator of the
/// foreign representation.
pub open spec fn has_interior_nul(bytes: Seq<u8>) -> bool {
    exists|i: int| 0 <= i < bytes.len() && bytes[i] == 0
}

/// The failure text reported when a host string cannot cross the boundary.
pub open spec fn nul_message() -> Seq<char> {
    "string holds an interior zero byte"@
}

/// The failure reported when a host string cannot cross the boundary.
pub fn nul_error() -> (r: String)
    ensures
        r@ == nul_message(),
{
    String::from_str("string holds an interior zero byte")
}

/// Whether the string's bytes hold an interior zero byte.
pub fn str_has_nul(s: &str) -> (r: bool)
    ensures
        r == has_interior_nul(s.spec_bytes()),
{
    let bytes = s.as_bytes();
    let n = bytes.len();
    let mut k: usize = 0;
    while k < n
        invariant
            0 <= k <= n,
            n == bytes@.len(),
            bytes@ == s.spec_bytes(),
            forall|m: int| 0 <= m < k ==> bytes@[m] != 0,
        decreases n - k,
    {
        if bytes[k] == 0 {
            return true;
        }
        k = k + 1;
    }
    false
}

/// The zero-terminated byte string a host string crosses the boundary as,
/// or the encoding failure where an interior zero byte forbids one.
pub fn c_string_bytes(s: &str) -> (r: Result<Vec<u8>, String>)
    ensures
        match r {
            Ok(v) => !has_interior_nul(s.spec_bytes()) && v@ == s.spec_bytes().push(0u8),
            Err(m) => has_interior_nul(s.spec_bytes()) && m@ == nul_message(),
        },
{
    let bytes = s.as_bytes();
    let n = bytes.len();
    let mut out: Vec<u8> = Vec::new();
    let mut k: usize = 0;
    while k < n
        invariant
            0 <= k <= n,
            n == bytes@.len(),
            bytes@ == s.spec_bytes(),
            out@ == s.spec_bytes().take(k as int),
            forall|m: int| 0 <= m < k ==> bytes@[m] != 0,
        decreases n - k,
    {
        let b = bytes[k];
        if b == 0 {
            return Err(nul_error());
        }
        out.push(b);
        k = k + 1;
    }
    out.push(0);
    proof {
        assert(out@ =~= s.spec_bytes().push(0u8));
    }
    Ok(out)
}

} // verus!
