use vstd::prelude::*;
use crate::ledger::{
    lemma_find_post_push, lemma_find_profile_push, spec_find_post, spec_find_profile, Ledger,
};
use crate::records::{Post, Profile};

verus! {

/// At most one Profile record exists per owner identity: in a well-formed
/// ledger, two profiles with the same owner key are the same record.
pub proof fn law_one_profile_per_owner(l: Ledger, i: int, j: int)
    requires
        l.wf(),
        0 <= i < l.profiles@.len(),
        0 <= j < l.profiles@.len(),
        l.profiles@[i].owner@ == l.profiles@[j].owner@,
    ensures
        i == j,
{
    if i < j {
        assert(l.profiles@[i].owner@ != l.profiles@[j].owner@);
    }
    if j < i {
        assert(l.profiles@[j].owner@ != l.profiles@[i].owner@);
    }
}

/// At most one Post record exists per (author, timestamp) seed: in a
/// well-formed ledger, two posts with the same author and creation time are
/// the same record.
pub proof fn law_one_post_per_author_and_second(l: Ledger, i: int, j: int)
    requires
        l.wf(),
        0 <= i < l.posts@.len(),
        0 <= j < l.posts@.len(),
        l.posts@[i].author@ == l.posts@[j].author@,
        l.posts@[i].timestamp == l.posts@[j].timestamp,
    ensures
        i == j,
{
    if i < j {
        assert(!(l.posts@[i].author@ == l.posts@[j].author@ && l.posts@[i].timestamp
            == l.posts@[j].timestamp));
    }
    if j < i {
        assert(!(l.posts@[j].author@ == l.posts@[i].author@ && l.posts@[j].timestamp
            == l.posts@[i].timestamp));
    }
}

/// A ledger whose Profile scan finds no record for an owner holds no record
/// for that owner at all.
proof fn lemma_find_profile_none_absent(s: Seq<Profile>, owner: Seq<u8>)
    requires
        spec_find_profile(s, owner) is None,
    ensures
        forall|k: int| 0 <= k < s.len() ==> s[k].owner@ != owner,
    decreases s.len(),
{
    if s.len() > 0 {
        assert(s[0].owner@ != owner);
        lemma_find_profile_none_absent(s.skip(1), owner);
        assert forall|k: int| 0 <= k < s.len() implies s[k].owner@ != owner by {
            if k > 0 {
                assert(s.skip(1)[k - 1] == s[k]);
            }
        }
    }
}

/// A ledger whose Post scan finds no record for a slot holds no record for
/// that slot at all.
proof fn lemma_find_post_none_absent(s: Seq<Post>, author: Seq<u8>, ts: int)
    requires
        spec_find_post(s, author, ts) is None,
    ensures
        forall|k: int| 0 <= k < s.len() ==> !(s[k].author@ == author && s[k].timestamp == ts),
    decreases s.len(),
{
    if s.len() > 0 {
        assert(!(s[0].author@ == author && s[0].timestamp == ts));
        lemma_find_post_none_absent(s.skip(1), author, ts);
        assert forall|k: int| 0 <= k < s.len() implies !(s[k].author@ == author
            && s[k].timestamp == ts) by {
            if k > 0 {
                assert(s.skip(1)[k - 1] == s[k]);
            }
        }
    }
}

/// Creating a profile occupies its owner's slot for good: when a
/// create_profile call succeeds, its contract says the profile list became
/// `pre.push(p)` with the new record owned by the signer, and this law says
/// the owner's slot is then found occupied. The contract of create_profile
/// in turn rejects any call on an occupied slot with AddressInUse and leaves
/// the ledger untouched — so a second create_profile for the same owner, in
/// any later transaction, must fail with the address-collision error and can
/// never silently overwrite the first record.
pub proof fn law_profile_slot_stays_occupied(pre: Seq<Profile>, p: Profile)
    requires
        spec_find_profile(pre, p.owner@) is None,
    ensures
        spec_find_profile(pre.push(p), p.owner@) == Some(p),
{
    lemma_find_profile_none_absent(pre, p.owner@);
    lemma_find_profile_push(pre, p, p.owner@);
}

/// Creating a post occupies its (author, timestamp) slot for good: when a
/// create_post call succeeds, the post list became `pre.push(p)`, and this
/// law says the slot keyed by that author and creation time is then found
/// occupied. The contract of create_post rejects any call on an occupied
/// slot with AddressInUse — so the same author posting twice at the same
/// logical second is refused as a duplicate-address error, not a content
/// error.
pub proof fn law_post_slot_stays_occupied(pre: Seq<Post>, p: Post)
    requires
        spec_find_post(pre, p.author@, p.timestamp as int) is None,
    ensures
        spec_find_post(pre.push(p), p.author@, p.timestamp as int) == Some(p),
{
    lemma_find_post_none_absent(pre, p.author@, p.timestamp as int);
    lemma_find_post_push(pre, p, p.author@, p.timestamp as int);
}

} // verus!
