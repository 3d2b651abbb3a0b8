use vstd::prelude::*;
use crate::error::ErrorCode;
use crate::identity::{identity_eq, Identity};

verus! {

/// The authorization check: a mutation is permitted only if the signer the
/// host's capability oracle attested is the identity that the record's
/// access-control field names. Any mismatch is Unauthorized and aborts the
/// whole transaction.
pub fn require_signer(signer: &Identity, required: &Identity) -> (r: Result<(), ErrorCode>)
    ensures
        r is Ok <==> signer@ == required@,
        r is Err ==> r == Err::<(), ErrorCode>(ErrorCode::Unauthorized),
{
    if identity_eq(signer, required) {
        Ok(())
    } else {
        Err(ErrorCode::Unauthorized)
    }
}

} // verus!
