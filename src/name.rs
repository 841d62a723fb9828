use vstd::prelude::*;
use vstd::string::*;

use crate::error::NixlError;

verus! {

/// A name can cross the engine boundary as a terminated byte string only if it
/// holds no terminator character.
pub open spec fn is_valid_name(name: Seq<char>) -> bool {
    forall|i: int| 0 <= i < name.len() ==> name[i] != '\0'
}

/// Checks a caller-supplied name before it is handed to the engine.
pub fn check_name(name: &str) -> (r: Result<(), NixlError>)
    ensures
        r == (if is_valid_name(name@) {
            Ok(())
        } else {
            Err(NixlError::InvalidParam)
        }),
{
    let n = name.unicode_len();
    let mut i: usize = 0;
    while i < n
        invariant
            n == name@.len(),
            i <= n,
            forall|j: int| 0 <= j < i ==> name@[j] != '\0',
        decreases n - i,
    {
        if name.get_char(i) == '\0' {
            return Err(NixlError::InvalidParam);
        }
        i += 1;
    }
    Ok(())
}

} // verus!
