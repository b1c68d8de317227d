use vstd::prelude::*;
use vstd::string::StringSliceAdditionalSpecFns;

use crate::error::{error_kind, WordexpError, WordexpErrorType};
use crate::handle::{Wordexp, WordexpRecord};

verus! {

/// Whether the bytes hold a NUL, which cannot pass into a C string.
pub open spec fn has_nul(bytes: Seq<u8>) -> bool {
    exists|i: int| 0 <= i < bytes.len() && bytes[i] == 0u8
}

/// Checks that the input can be handed to the native call as a C string:
/// it fails with `InvalidInput` exactly when the input holds a NUL byte.
pub fn check_input(s: &str) -> (r: Result<(), WordexpError>)
    ensures
        r is Err <==> has_nul(s.spec_bytes()),
        r matches Err(e) ==> e.error_type == WordexpErrorType::InvalidInput,
{
    let bytes: &[u8] = s.as_bytes();
    let n: usize = bytes.len();
    let mut i: usize = 0;
    while i < n
        invariant
            n == bytes@.len(),
            bytes@ == s.spec_bytes(),
            i <= n,
            forall|j: int| 0 <= j < i ==> bytes@[j] != 0u8,
        decreases n - i,
    {
        if bytes[i] == 0u8 {
            return Err(WordexpError::new(WordexpErrorType::InvalidInput));
        }
        i = i + 1;
    }
    Ok(())
}

/// Completes an expansion once the native call has returned `status` and
/// filled `record`. On success the handle takes the record and its counts;
/// any other status becomes the error kind it stands for, and the handle is
/// left as it was.
pub fn wordexp_finish(p: &mut Wordexp, status: i32, record: WordexpRecord) -> (r: Result<
    (),
    WordexpError,
>)
    requires
        status == 0 ==> record.wf(),
    ensures
        status == 0 <==> r is Ok,
        r is Ok ==> final(p).wordexp_ref == Some(record) && final(p).we_offs == record.we_offs
            && final(p).we_wordc == record.we_wordc && final(p).wf(),
        r matches Err(e) ==> e == WordexpError::new_spec(error_kind(status)) && *final(p)
            == *old(p),
{
    if status == 0 {
        p.wordexp_ref = Some(record);
        p.update();
        Ok(())
    } else {
        Err(WordexpError::new(WordexpErrorType::from(status)))
    }
}

} // verus!
