//! Text conversions at the native boundary.
//!
//! A native call takes its text arguments as nul-terminated byte buffers,
//! so a path or a reference name must be scanned for an embedded
//! terminator before the call ([`to_nul_terminated`]). In the other
//! direction the engine exposes text fields as possibly-absent,
//! nul-terminated bytes in its own memory; [`decode_c_field`] turns a
//! copy of such a field into an owned string when the bytes are valid
//! UTF-8, and into `None` when the field is absent or not decodable.

use crate::errors::{GitError, GitResult};
use vstd::prelude::*;
use vstd::utf8::{decode_utf8, valid_utf8};

verus! {

/// True when the bytes hold an embedded nul, which no nul-terminated
/// native text argument can carry.
pub open spec fn has_nul(s: Seq<u8>) -> bool {
    exists|i: int| 0 <= i < s.len() && s[i] == 0u8
}

/// Encodes `text` for a native call: the same bytes with a terminating
/// nul appended. Fails, without reaching the engine, exactly when `text`
/// holds an embedded nul byte.
pub fn to_nul_terminated(text: &[u8]) -> (r: GitResult<Vec<u8>>)
    ensures
        r is Ok <==> !has_nul(text@),
        r matches Ok(v) ==> v@ == text@.push(0u8),
        r matches Err(e) ==> e.code == -1 && e.klass == 0 && e.message@.len() > 0,
{
    let n: usize = text.len();
    let mut out: Vec<u8> = Vec::new();
    let mut i: usize = 0;
    while i < n
        invariant
            n == text@.len(),
            i <= n,
            out@ == text@.take(i as int),
            !has_nul(text@.take(i as int)),
        decreases n - i,
    {
        let b: u8 = text[i];
        if b == 0 {
            proof {
                assert(has_nul(text@)) by {
                    assert(text@[i as int] == 0u8);
                }
            }
            return Err(GitError::embedded_nul());
        }
        out.push(b);
        proof {
            assert(text@.take(i + 1int).drop_last() == text@.take(i as int));
            assert(text@.take(i + 1int) == text@.take(i as int).push(text@[i as int]));
        }
        i = i + 1;
    }
    proof {
        assert(text@.take(n as int) == text@);
    }
    out.push(0);
    Ok(out)
}

/// Relies on `String::from_utf8` of std: it succeeds exactly on valid
/// UTF-8 and returns the string those bytes encode.
#[verifier::external_body]
fn utf8_to_string(bytes: &Vec<u8>) -> (r: Option<String>)
    ensures
        r is Some <==> valid_utf8(bytes@),
        r matches Some(s) ==> s@ == decode_utf8(bytes@),
{
    match String::from_utf8(bytes.clone()) {
        Ok(s) => Some(s),
        Err(_) => None,
    }
}

/// Decodes a copy of a native text field. The engine may omit a field
/// (a null pointer, here `None`) and its bytes need not be valid UTF-8;
/// both cases give `None`, undistinguished. Never fails beyond `None`,
/// and never substitutes a default or sentinel string.
pub fn decode_c_field(field: &Option<Vec<u8>>) -> (r: Option<String>)
    ensures
        r is Some <==> (field.deep_view() matches Some(b) && valid_utf8(b)),
        r matches Some(s) ==> field.deep_view() matches Some(b) && s@ == decode_utf8(b),
{
    match field {
        None => {
            proof {
                assert(field.deep_view() is None);
            }
            None
        },
        Some(b) => {
            let r = utf8_to_string(b);
            proof {
                assert(field.deep_view() == Some(b@));
            }
            r
        },
    }
}

} // verus!
