use vstd::prelude::*;
use crate::identity::Identity;

verus! {

/// The namespace tag of Profile slots: the bytes of "profile".
pub open spec fn profile_tag() -> Seq<u8> {
    seq![112u8, 114u8, 111u8, 102u8, 105u8, 108u8, 101u8]
}

/// The namespace tag of Post slots: the bytes of "post".
pub open spec fn post_tag() -> Seq<u8> {
    seq![112u8, 111u8, 115u8, 116u8]
}

/// The derived slot of a Profile record: seed tuple ("profile", owner).
/// Exactly one Profile slot exists per owner identity.
pub struct ProfileAddress {
    pub owner: Identity,
}

/// The derived slot of a Post record: seed tuple ("post", author, timestamp).
/// The creation timestamp is part of the seed, so one author gets at most one
/// Post slot per distinct logical second; a second post in the same second
/// collides with the first.
pub struct PostAddress {
    pub author: Identity,
    pub timestamp: i64,
}

impl ProfileAddress {
    pub open spec fn wf(&self) -> bool {
        self.owner.wf()
    }

    /// The byte part of the seed tuple.
    pub open spec fn seed(&self) -> Seq<u8> {
        profile_tag() + self.owner@
    }
}

impl PostAddress {
    pub open spec fn wf(&self) -> bool {
        self.author.wf()
    }

    /// The byte part of the seed tuple; the timestamp is the remaining
    /// component.
    pub open spec fn seed(&self) -> Seq<u8> {
        post_tag() + self.author@
    }
}

/// Deterministic Profile addressing: the slot is a function of the owner
/// alone, so a caller can recompute it to locate an existing record.
pub fn derive_profile_address(owner: &Identity) -> (r: ProfileAddress)
    ensures
        r.owner@ == owner@,
{
    ProfileAddress { owner: owner.duplicate() }
}

/// Deterministic Post addressing: the slot is a function of the author and
/// the creation timestamp alone.
pub fn derive_post_address(author: &Identity, timestamp: i64) -> (r: PostAddress)
    ensures
        r.author@ == author@,
        r.timestamp == timestamp,
{
    PostAddress { author: author.duplicate(), timestamp }
}

/// Profile slots are collision-free: two Profile seeds coincide exactly when
/// their owners coincide, so no two distinct owners share a slot and a slot
/// determines its owner.
pub proof fn lemma_profile_slots_collision_free(a: ProfileAddress, b: ProfileAddress)
    ensures
        (a.seed() == b.seed()) <==> (a.owner@ == b.owner@),
{
    if a.seed() == b.seed() {
        assert(a.owner@ =~= a.seed().skip(7));
        assert(b.owner@ =~= b.seed().skip(7));
    }
}

/// Post seeds are collision-free in the author component: together with the
/// timestamp component of the tuple, distinct (author, timestamp) pairs
/// always name distinct Post slots.
pub proof fn lemma_post_slots_collision_free(a: PostAddress, b: PostAddress)
    ensures
        (a.seed() == b.seed()) <==> (a.author@ == b.author@),
{
    if a.seed() == b.seed() {
        assert(a.author@ =~= a.seed().skip(4));
        assert(b.author@ =~= b.seed().skip(4));
    }
}

/// The two namespaces never collide: a Profile seed is never a Post seed,
/// whatever the owner and author bytes are.
pub proof fn lemma_namespaces_disjoint(a: ProfileAddress, b: PostAddress)
    ensures
        a.seed() != b.seed(),
{
    assert(a.seed()[1] == 114u8);
    assert(b.seed()[1] == 111u8);
}

} // verus!
