use vstd::prelude::*;

verus! {

/// Every way an instruction handler can reject a request. Each rejection
/// aborts the whole enclosing transaction; no partial effect persists.
#[derive(Clone, Copy, Debug, PartialEq, Eq, Structural)]
pub enum ErrorCode {
    /// Username byte length outside [3, 20].
    UsernameInvalid,
    /// Bio longer than 140 bytes.
    BioTooLong,
    /// Profile picture reference longer than 100 bytes.
    ProfilePictureTooLong,
    /// Post content longer than 280 bytes.
    PostTooLong,
    /// Message ciphertext longer than 1000 bytes.
    MessageTooLong,
    /// No instruction follows the current one, or the following instruction
    /// does not target the trusted logging (memo) service.
    InvalidMemoInstruction,
    /// The following instruction targets the logging service but its payload
    /// is not byte-for-byte the canonical post payload.
    InvalidMemoData,
    /// The signer is not the identity the record's access-control field names.
    Unauthorized,
    /// The derived record slot is already occupied (duplicate creation).
    AddressInUse,
}

} // verus!
