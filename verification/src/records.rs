use vstd::prelude::*;
use crate::identity::Identity;

verus! {

/// Username byte-length floor and ceiling.
pub const USERNAME_MIN_LEN: usize = 3;

pub const USERNAME_MAX_LEN: usize = 20;

/// Bio byte-length ceiling.
pub const BIO_MAX_LEN: usize = 140;

/// Profile-picture reference byte-length ceiling.
pub const PROFILE_PICTURE_MAX_LEN: usize = 100;

/// Post content byte-length ceiling, before canonicalization.
pub const POST_CONTENT_MAX_LEN: usize = 280;

/// Message ciphertext byte-length ceiling.
pub const MESSAGE_MAX_LEN: usize = 1000;

/// Serialized Profile record size: record-kind tag, owner, three
/// length-prefixed strings at their ceilings, two timestamps.
pub const PROFILE_RECORD_SPACE: usize = 8 + 32 + (4 + USERNAME_MAX_LEN) + (4 + BIO_MAX_LEN) + (4
    + PROFILE_PICTURE_MAX_LEN) + 8 + 8;

/// Serialized Post record size: record-kind tag, author, timestamp, content
/// reference.
pub const POST_RECORD_SPACE: usize = 8 + 32 + 8 + 32;

/// Serialized Message record size: record-kind tag, sender, recipient,
/// length-prefixed ciphertext at its ceiling, timestamp, read flag.
pub const MESSAGE_RECORD_SPACE: usize = 8 + 32 + 32 + (4 + MESSAGE_MAX_LEN) + 8 + 1;

/// One Profile record per user identity.
pub struct Profile {
    /// Immutable after creation; also the seed of the record's slot.
    pub owner: Identity,
    /// Set once at creation, 3 to 20 bytes, immutable thereafter.
    pub username: Vec<u8>,
    /// At most 140 bytes, mutable by the owner.
    pub bio: Vec<u8>,
    /// Opaque content locator, at most 100 bytes, mutable by the owner.
    pub profile_picture: Vec<u8>,
    /// Logical creation time, immutable.
    pub created_at: i64,
    /// Advances on every update; never below created_at.
    pub updated_at: i64,
}

impl Profile {
    pub open spec fn wf(&self) -> bool {
        &&& self.owner.wf()
        &&& USERNAME_MIN_LEN <= self.username@.len() <= USERNAME_MAX_LEN
        &&& self.bio@.len() <= BIO_MAX_LEN
        &&& self.profile_picture@.len() <= PROFILE_PICTURE_MAX_LEN
        &&& self.created_at <= self.updated_at
    }
}

/// A Post record holds no text: only the author, the creation time (part of
/// its slot seed), and the handle of the sibling logging-service record that
/// holds the content.
pub struct Post {
    pub author: Identity,
    pub timestamp: i64,
    pub memo_account: Identity,
}

impl Post {
    pub open spec fn wf(&self) -> bool {
        &&& self.author.wf()
        &&& self.memo_account.wf()
    }
}

/// A direct message. Every field but `read` is immutable after creation, and
/// `read` only ever goes from false to true.
pub struct Message {
    pub sender: Identity,
    /// Copied from the target Profile's owner at send time, never supplied
    /// directly by the caller.
    pub recipient: Identity,
    /// Opaque ciphertext, at most 1000 bytes, passed through unmodified.
    pub encrypted_content: Vec<u8>,
    pub timestamp: i64,
    pub read: bool,
}

impl Message {
    pub open spec fn wf(&self) -> bool {
        &&& self.sender.wf()
        &&& self.recipient.wf()
        &&& self.encrypted_content@.len() <= MESSAGE_MAX_LEN
    }
}

/// One instruction of the enclosing transaction, as the host's instruction
/// inspector presents it for reading: the program it targets and its raw
/// payload bytes. The inspector never executes what it shows.
pub struct Instruction {
    pub program_id: Identity,
    pub data: Vec<u8>,
}

} // verus!
