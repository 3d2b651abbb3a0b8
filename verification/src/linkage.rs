use vstd::prelude::*;
use crate::error::ErrorCode;
use crate::identity::{bytes_eq, identity_eq, Identity};
use crate::records::Instruction;

verus! {

/// The sibling instruction passes the linkage check: the instruction
/// immediately after `cur_index` exists, targets the logging service, and
/// carries exactly the expected bytes.
pub open spec fn linked_call_ok(
    memo_program: Seq<u8>,
    tx: Seq<Instruction>,
    cur_index: int,
    expected: Seq<u8>,
) -> bool {
    &&& cur_index + 1 < tx.len()
    &&& tx[cur_index + 1].program_id@ == memo_program
    &&& tx[cur_index + 1].data@ == expected
}

/// The cross-instruction verifier: confirms that the instruction immediately
/// following the current one, in the same atomic transaction, invokes the
/// trusted logging service with a payload byte-for-byte equal to `expected`.
/// The protocol is positional — a matching call anywhere else in the
/// transaction does not count. The verifier reads the sibling instruction;
/// it never executes it.
pub fn verify_linked_logging_call(
    memo_program: &Identity,
    tx: &Vec<Instruction>,
    cur_index: usize,
    expected: &Vec<u8>,
) -> (r: Result<(), ErrorCode>)
    requires
        cur_index < tx@.len(),
    ensures
        r is Ok <==> linked_call_ok(memo_program@, tx@, cur_index as int, expected@),
        (cur_index + 1 >= tx@.len() || tx@[cur_index + 1].program_id@ != memo_program@) ==> r
            == Err::<(), ErrorCode>(ErrorCode::InvalidMemoInstruction),
        (cur_index + 1 < tx@.len() && tx@[cur_index + 1].program_id@ == memo_program@ && tx@[
            cur_index + 1
        ].data@ != expected@) ==> r == Err::<(), ErrorCode>(ErrorCode::InvalidMemoData),
    {
    if tx.len() - cur_index < 2 {
        return Err(ErrorCode::InvalidMemoInstruction);
    }
    let next_index = cur_index + 1;
    let next_ix = &tx[next_index];
    if !identity_eq(&next_ix.program_id, memo_program) {
        return Err(ErrorCode::InvalidMemoInstruction);
    }
    if !bytes_eq(&next_ix.data, expected) {
        return Err(ErrorCode::InvalidMemoData);
    }
    Ok(())
}

} // verus!
