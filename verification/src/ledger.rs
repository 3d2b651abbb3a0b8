use vstd::prelude::*;
use crate::address::{derive_post_address, derive_profile_address, ProfileAddress};
use crate::auth::require_signer;
use crate::error::ErrorCode;
use crate::identity::{identity_eq, Identity};
use crate::linkage::{linked_call_ok, verify_linked_logging_call};
use crate::payload::{canonical_payload, canonical_payload_spec};
use crate::records::{Instruction, Message, Post, Profile};
use crate::validation::{
    bio_ok, message_content_ok, post_content_ok, profile_picture_ok, username_ok, validate_bio,
    validate_message_content, validate_post_content, validate_profile_picture, validate_username,
};

verus! {

/// The slice of the ledger's account space this program owns: its Profile,
/// Post and Message records, each at its own slot, plus the known identity
/// of the trusted logging (memo) service. Profile slots are keyed by owner,
/// Post slots by (author, timestamp); Message records get fresh slots in
/// allocation order, so a Message handle is its index.
///
/// The host serializes all access: one instruction mutates the ledger at a
/// time, and a rejected instruction aborts its whole transaction, so every
/// mutation here either completes or leaves the ledger untouched.
pub struct Ledger {
    pub memo_program: Identity,
    pub profiles: Vec<Profile>,
    pub posts: Vec<Post>,
    pub messages: Vec<Message>,
}

/// The record, if any, at the Profile slot keyed by `owner`: the first (and,
/// in a well-formed ledger, only) profile whose owner key equals it.
pub open spec fn spec_find_profile(s: Seq<Profile>, owner: Seq<u8>) -> Option<Profile>
    decreases s.len(),
{
    if s.len() == 0 {
        None
    } else if s[0].owner@ == owner {
        Some(s[0])
    } else {
        spec_find_profile(s.skip(1), owner)
    }
}

/// The record, if any, at the Post slot keyed by (author, timestamp).
pub open spec fn spec_find_post(s: Seq<Post>, author: Seq<u8>, ts: int) -> Option<Post>
    decreases s.len(),
{
    if s.len() == 0 {
        None
    } else if s[0].author@ == author && s[0].timestamp == ts {
        Some(s[0])
    } else {
        spec_find_post(s.skip(1), author, ts)
    }
}

/// Scanning past a match-free prefix does not change what is found.
proof fn lemma_find_profile_skip(s: Seq<Profile>, owner: Seq<u8>, i: int)
    requires
        0 <= i <= s.len(),
        forall|k: int| 0 <= k < i ==> s[k].owner@ != owner,
    ensures
        spec_find_profile(s, owner) == spec_find_profile(s.skip(i), owner),
    decreases i,
{
    if i > 0 {
        assert(s[0].owner@ != owner);
        assert(forall|k: int| 0 <= k < i - 1 ==> s.skip(1)[k].owner@ != owner) by {
            assert(forall|k: int| 0 <= k < i - 1 ==> s.skip(1)[k] == s[k + 1]);
        }
        lemma_find_profile_skip(s.skip(1), owner, i - 1);
        assert(s.skip(1).skip(i - 1) =~= s.skip(i));
    } else {
        assert(s.skip(0) =~= s);
    }
}

/// Scanning past a match-free prefix does not change what is found.
proof fn lemma_find_post_skip(s: Seq<Post>, author: Seq<u8>, ts: int, i: int)
    requires
        0 <= i <= s.len(),
        forall|k: int| 0 <= k < i ==> !(s[k].author@ == author && s[k].timestamp == ts),
    ensures
        spec_find_post(s, author, ts) == spec_find_post(s.skip(i), author, ts),
    decreases i,
{
    if i > 0 {
        assert(!(s[0].author@ == author && s[0].timestamp == ts));
        assert(forall|k: int|
            0 <= k < i - 1 ==> !(s.skip(1)[k].author@ == author && s.skip(1)[k].timestamp
                == ts)) by {
            assert(forall|k: int| 0 <= k < i - 1 ==> s.skip(1)[k] == s[k + 1]);
        }
        lemma_find_post_skip(s.skip(1), author, ts, i - 1);
        assert(s.skip(1).skip(i - 1) =~= s.skip(i));
    } else {
        assert(s.skip(0) =~= s);
    }
}

/// A profile appended to a slot-free ledger is found at its slot.
pub proof fn lemma_find_profile_push(s: Seq<Profile>, p: Profile, owner: Seq<u8>)
    requires
        forall|k: int| 0 <= k < s.len() ==> s[k].owner@ != owner,
        p.owner@ == owner,
    ensures
        spec_find_profile(s.push(p), owner) == Some(p),
{
    lemma_find_profile_skip(s.push(p), owner, s.len() as int);
    assert(s.push(p).skip(s.len() as int) =~= seq![p]);
}

/// A post appended to a slot-free ledger is found at its slot.
pub proof fn lemma_find_post_push(s: Seq<Post>, p: Post, author: Seq<u8>, ts: int)
    requires
        forall|k: int| 0 <= k < s.len() ==> !(s[k].author@ == author && s[k].timestamp == ts),
        p.author@ == author,
        p.timestamp == ts,
    ensures
        spec_find_post(s.push(p), author, ts) == Some(p),
{
    lemma_find_post_skip(s.push(p), author, ts, s.len() as int);
    assert(s.push(p).skip(s.len() as int) =~= seq![p]);
}

impl Ledger {
    /// Slots are unique per seed, and every stored record is well-formed.
    pub open spec fn wf(&self) -> bool {
        &&& self.memo_program.wf()
        &&& forall|i: int, j: int|
            0 <= i < j < self.profiles@.len() ==> #[trigger] self.profiles@[i].owner@
                != #[trigger] self.profiles@[j].owner@
        &&& forall|i: int| 0 <= i < self.profiles@.len() ==> (#[trigger] self.profiles@[i]).wf()
        &&& forall|i: int, j: int|
            0 <= i < j < self.posts@.len() ==> !((#[trigger] self.posts@[i]).author@
                == (#[trigger] self.posts@[j]).author@ && self.posts@[i].timestamp
                == self.posts@[j].timestamp)
        &&& forall|i: int| 0 <= i < self.posts@.len() ==> (#[trigger] self.posts@[i]).wf()
        &&& forall|i: int| 0 <= i < self.messages@.len() ==> (#[trigger] self.messages@[i]).wf()
    }

    /// An empty ledger trusting the given logging service.
    pub fn new(memo_program: Identity) -> (r: Ledger)
        requires
            memo_program.wf(),
        ensures
            r.wf(),
            r.memo_program@ == memo_program@,
            r.profiles@.len() == 0,
            r.posts@.len() == 0,
            r.messages@.len() == 0,
    {
        Ledger { memo_program, profiles: Vec::new(), posts: Vec::new(), messages: Vec::new() }
    }

    /// Index of the profile at the slot keyed by `owner`, if that slot is
    /// occupied.
    fn find_profile_index(&self, owner: &Identity) -> (r: Option<usize>)
        ensures
            match r {
                Some(i) => {
                    &&& i < self.profiles@.len()
                    &&& self.profiles@[i as int].owner@ == owner@
                    &&& forall|k: int| 0 <= k < i ==> self.profiles@[k].owner@ != owner@
                    &&& spec_find_profile(self.profiles@, owner@) == Some(
                        self.profiles@[i as int],
                    )
                },
                None => {
                    &&& spec_find_profile(self.profiles@, owner@) is None
                    &&& forall|k: int|
                        0 <= k < self.profiles@.len() ==> self.profiles@[k].owner@ != owner@
                },
            },
    {
        let mut i: usize = 0;
        while i < self.profiles.len()
            invariant
                i <= self.profiles@.len(),
                forall|k: int| 0 <= k < i ==> self.profiles@[k].owner@ != owner@,
            decreases self.profiles@.len() - i,
        {
            if identity_eq(&self.profiles[i].owner, owner) {
                proof {
                    lemma_find_profile_skip(self.profiles@, owner@, i as int);
                    assert(self.profiles@.skip(i as int)[0] == self.profiles@[i as int]);
                }
                return Some(i);
            }
            i += 1;
        }
        proof {
            lemma_find_profile_skip(self.profiles@, owner@, i as int);
            assert(self.profiles@.skip(i as int) =~= Seq::<Profile>::empty());
        }
        None
    }

    /// Index of the post at the slot keyed by (author, timestamp), if that
    /// slot is occupied.
    fn find_post_index(&self, author: &Identity, timestamp: i64) -> (r: Option<usize>)
        ensures
            match r {
                Some(i) => {
                    &&& i < self.posts@.len()
                    &&& self.posts@[i as int].author@ == author@
                    &&& self.posts@[i as int].timestamp == timestamp
                    &&& spec_find_post(self.posts@, author@, timestamp as int) == Some(
                        self.posts@[i as int],
                    )
                },
                None => {
                    &&& spec_find_post(self.posts@, author@, timestamp as int) is None
                    &&& forall|k: int|
                        0 <= k < self.posts@.len() ==> !(self.posts@[k].author@ == author@
                            && self.posts@[k].timestamp == timestamp)
                },
            },
    {
        let mut i: usize = 0;
        while i < self.posts.len()
            invariant
                i <= self.posts@.len(),
                forall|k: int|
                    0 <= k < i ==> !(self.posts@[k].author@ == author@ && self.posts@[k].timestamp
                        == timestamp),
            decreases self.posts@.len() - i,
        {
            let p = &self.posts[i];
            if p.timestamp == timestamp && identity_eq(&p.author, author) {
                proof {
                    lemma_find_post_skip(self.posts@, author@, timestamp as int, i as int);
                    assert(self.posts@.skip(i as int)[0] == self.posts@[i as int]);
                }
                return Some(i);
            }
            i += 1;
        }
        proof {
            lemma_find_post_skip(self.posts@, author@, timestamp as int, i as int);
            assert(self.posts@.skip(i as int) =~= Seq::<Post>::empty());
        }
        None
    }
}

/// The 32 key bytes of the trusted logging (memo) service's known identity.
pub open spec fn memo_program_id_spec() -> Seq<u8> {
    seq![
        5u8, 74u8, 83u8, 90u8, 153u8, 41u8, 33u8, 6u8, 77u8, 36u8, 232u8, 113u8, 96u8, 218u8,
        56u8, 124u8, 124u8, 53u8, 181u8, 221u8, 188u8, 146u8, 187u8, 129u8, 228u8, 31u8, 168u8,
        64u8, 65u8, 5u8, 68u8, 141u8,
    ]
}

/// The known identity of the trusted logging (memo) service.
pub fn memo_program_id() -> (r: Identity)
    ensures
        r@ == memo_program_id_spec(),
        r.wf(),
{
    let mut v: Vec<u8> = Vec::new();
    v.push(5);
    v.push(74);
    v.push(83);
    v.push(90);
    v.push(153);
    v.push(41);
    v.push(33);
    v.push(6);
    v.push(77);
    v.push(36);
    v.push(232);
    v.push(113);
    v.push(96);
    v.push(218);
    v.push(56);
    v.push(124);
    v.push(124);
    v.push(53);
    v.push(181);
    v.push(221);
    v.push(188);
    v.push(146);
    v.push(187);
    v.push(129);
    v.push(228);
    v.push(31);
    v.push(168);
    v.push(64);
    v.push(65);
    v.push(5);
    v.push(68);
    v.push(141);
    proof {
        assert(v@ =~= memo_program_id_spec());
    }
    Identity { bytes: v }
}

/// The accounts of the no-op bootstrap instruction.
pub struct Initialize {}

/// The resolved accounts of a create_profile instruction: the signer who
/// will own the new profile. The host funds the Profile slot derived from
/// this owner.
pub struct CreateProfile {
    pub user: Identity,
}

/// Bootstrap instruction: validates nothing and touches nothing.
pub fn initialize(_ctx: Initialize) -> (r: Result<(), ErrorCode>)
    ensures
        r is Ok,
{
    Ok(())
}

impl Ledger {
    /// Creates the Profile record of `ctx.user` at its derived slot.
    ///
    /// Fails with AddressInUse if that slot is already occupied (at most one
    /// profile ever exists per owner), and with the field's own error when a
    /// field is inadmissible; on any failure the ledger is untouched. On
    /// success the new record holds the given fields verbatim, owned by the
    /// signer, with both timestamps equal to the current logical time.
    pub fn create_profile(
        &mut self,
        ctx: CreateProfile,
        username: Vec<u8>,
        bio: Vec<u8>,
        profile_picture: Vec<u8>,
        now: i64,
    ) -> (r: Result<(), ErrorCode>)
        requires
            old(self).wf(),
            ctx.user.wf(),
        ensures
            final(self).wf(),
            r is Ok <==> (spec_find_profile(old(self).profiles@, ctx.user@) is None
                && username_ok(username@) && bio_ok(bio@) && profile_picture_ok(
                profile_picture@,
            )),
            r is Err ==> *final(self) == *old(self),
            spec_find_profile(old(self).profiles@, ctx.user@) is Some ==> r == Err::<
                (),
                ErrorCode,
            >(ErrorCode::AddressInUse),
            spec_find_profile(old(self).profiles@, ctx.user@) is None && !username_ok(username@)
                ==> r == Err::<(), ErrorCode>(ErrorCode::UsernameInvalid),
            spec_find_profile(old(self).profiles@, ctx.user@) is None && username_ok(username@)
                && !bio_ok(bio@) ==> r == Err::<(), ErrorCode>(ErrorCode::BioTooLong),
            spec_find_profile(old(self).profiles@, ctx.user@) is None && username_ok(username@)
                && bio_ok(bio@) && !profile_picture_ok(profile_picture@) ==> r == Err::<
                (),
                ErrorCode,
            >(ErrorCode::ProfilePictureTooLong),
            r is Ok ==> final(self).profiles@ == old(self).profiles@.push(
                (Profile {
                    owner: ctx.user,
                    username: username,
                    bio: bio,
                    profile_picture: profile_picture,
                    created_at: now,
                    updated_at: now,
                }),
            ),
            r is Ok ==> (spec_find_profile(final(self).profiles@, ctx.user@) matches Some(p)
                && p.owner@ == ctx.user@ && p.username@ == username@ && p.bio@ == bio@
                && p.profile_picture@ == profile_picture@ && p.created_at == now && p.updated_at
                == now),
            final(self).posts == old(self).posts,
            final(self).messages == old(self).messages,
            final(self).memo_program == old(self).memo_program,
    {
        let ghost user_v = ctx.user@;
        let addr = derive_profile_address(&ctx.user);
        match self.find_profile_index(&addr.owner) {
            Some(_) => {
                return Err(ErrorCode::AddressInUse);
            },
            None => {},
        }
        if let Err(e) = validate_username(&username) {
            return Err(e);
        }
        if let Err(e) = validate_bio(&bio) {
            return Err(e);
        }
        if let Err(e) = validate_profile_picture(&profile_picture) {
            return Err(e);
        }
        let p = Profile {
            owner: ctx.user,
            username,
            bio,
            profile_picture,
            created_at: now,
            updated_at: now,
        };
        let ghost pre = self.profiles@;
        let ghost pg = p;
        self.profiles.push(p);
        proof {
            assert(forall|k: int| 0 <= k < pre.len() ==> pre[k].owner@ != user_v);
            lemma_find_profile_push(pre, pg, user_v);
            assert forall|i: int, j: int|
                0 <= i < j < self.profiles@.len() implies self.profiles@[i].owner@
                != self.profiles@[j].owner@ by {
                if j == pre.len() {
                    assert(self.profiles@[i] == pre[i]);
                }
            }
        }
        Ok(())
    }
}

/// The resolved accounts of an update_profile instruction: the targeted
/// Profile slot and the signer claiming the right to mutate it.
pub struct UpdateProfile {
    pub profile: ProfileAddress,
    pub user: Identity,
}

impl Ledger {
    /// Updates the provided fields of the profile at `ctx.profile`, leaving
    /// absent fields untouched and unvalidated, and advances `updated_at` to
    /// the current logical time.
    ///
    /// Only the record's owner may mutate it: any other signer is rejected
    /// with Unauthorized. An inadmissible provided field is rejected with its
    /// own error, and on any failure no field at all is written.
    pub fn update_profile(
        &mut self,
        ctx: UpdateProfile,
        bio: Option<Vec<u8>>,
        profile_picture: Option<Vec<u8>>,
        now: i64,
    ) -> (r: Result<(), ErrorCode>)
        requires
            old(self).wf(),
            ctx.profile.wf(),
            ctx.user.wf(),
            spec_find_profile(old(self).profiles@, ctx.profile.owner@) is Some,
            now >= spec_find_profile(
                old(self).profiles@,
                ctx.profile.owner@,
            )->Some_0.updated_at,
        ensures
            final(self).wf(),
            r is Ok <==> (spec_find_profile(
                old(self).profiles@,
                ctx.profile.owner@,
            )->Some_0.owner@ == ctx.user@ && (bio matches Some(b) ==> bio_ok(b@)) && (
            profile_picture matches Some(p) ==> profile_picture_ok(p@))),
            r is Err ==> *final(self) == *old(self),
            spec_find_profile(old(self).profiles@, ctx.profile.owner@)->Some_0.owner@
                != ctx.user@ ==> r == Err::<(), ErrorCode>(ErrorCode::Unauthorized),
            (spec_find_profile(old(self).profiles@, ctx.profile.owner@)->Some_0.owner@
                == ctx.user@ && (bio matches Some(b) && !bio_ok(b@))) ==> r == Err::<
                (),
                ErrorCode,
            >(ErrorCode::BioTooLong),
            (spec_find_profile(old(self).profiles@, ctx.profile.owner@)->Some_0.owner@
                == ctx.user@ && (bio matches Some(b) ==> bio_ok(b@)) && (
            profile_picture matches Some(p) && !profile_picture_ok(p@))) ==> r == Err::<
                (),
                ErrorCode,
            >(ErrorCode::ProfilePictureTooLong),
            r is Ok ==> (spec_find_profile(final(self).profiles@, ctx.profile.owner@) matches Some(
                p2,
            ) && ({
                let p1 = spec_find_profile(old(self).profiles@, ctx.profile.owner@)->Some_0;
                &&& p2.owner@ == p1.owner@
                &&& p2.username@ == p1.username@
                &&& p2.created_at == p1.created_at
                &&& p2.bio@ == (if bio is Some {
                    bio->Some_0@
                } else {
                    p1.bio@
                })
                &&& p2.profile_picture@ == (if profile_picture is Some {
                    profile_picture->Some_0@
                } else {
                    p1.profile_picture@
                })
                &&& p2.updated_at == now
            })),
            r is Ok ==> final(self).profiles@.len() == old(self).profiles@.len(),
            r is Ok ==> forall|j: int|
                0 <= j < old(self).profiles@.len() && old(self).profiles@[j].owner@
                    != ctx.profile.owner@ ==> final(self).profiles@[j] == old(self).profiles@[j],
            (r is Ok && spec_find_profile(
                old(self).profiles@,
                ctx.profile.owner@,
            )->Some_0.updated_at < now) ==> spec_find_profile(
                final(self).profiles@,
                ctx.profile.owner@,
            )->Some_0.updated_at > spec_find_profile(
                old(self).profiles@,
                ctx.profile.owner@,
            )->Some_0.updated_at,
            final(self).posts == old(self).posts,
            final(self).messages == old(self).messages,
            final(self).memo_program == old(self).memo_program,
    {
        let ghost owner_v = ctx.profile.owner@;
        let ghost pre = self.profiles@;
        let i = match self.find_profile_index(&ctx.profile.owner) {
            Some(i) => i,
            None => {
                proof {
                    assert(false);
                }
                return Err(ErrorCode::Unauthorized);
            },
        };
        if let Err(e) = require_signer(&ctx.user, &self.profiles[i].owner) {
            return Err(e);
        }
        match &bio {
            Some(b) => {
                if let Err(e) = validate_bio(b) {
                    return Err(e);
                }
            },
            None => {},
        }
        match &profile_picture {
            Some(p) => {
                if let Err(e) = validate_profile_picture(p) {
                    return Err(e);
                }
            },
            None => {},
        }
        let entry = &mut self.profiles[i];
        match bio {
            Some(b) => {
                entry.bio = b;
            },
            None => {},
        }
        match profile_picture {
            Some(p) => {
                entry.profile_picture = p;
            },
            None => {},
        }
        entry.updated_at = now;
        proof {
            assert(forall|j: int|
                0 <= j < pre.len() ==> self.profiles@[j].owner@ == pre[j].owner@);
            lemma_find_profile_skip(self.profiles@, owner_v, i as int);
            assert(self.profiles@.skip(i as int)[0] == self.profiles@[i as int]);
        }
        Ok(())
    }
}

/// The resolved accounts of a create_post instruction: the signing author
/// and the handle of the logging-service record that will hold the content.
/// The host funds the Post slot derived from the author and the current
/// logical time.
pub struct CreatePost {
    pub user: Identity,
    pub memo_account: Identity,
}

impl Ledger {
    /// Creates a Post record for `ctx.user` at the slot derived from the
    /// author and the current logical time, after checking that the
    /// instruction immediately following this one (at `cur_index + 1` in the
    /// enclosing transaction `tx`) is an invocation of the trusted logging
    /// service carrying exactly the canonical payload rebuilt from the call
    /// inputs. The check inspects the sibling instruction; it never runs it.
    ///
    /// Fails with AddressInUse on a duplicate (author, timestamp) slot, with
    /// PostTooLong on oversized content, with InvalidMemoInstruction if no
    /// instruction follows or it targets anything but the logging service,
    /// and with InvalidMemoData if its payload bytes differ anywhere from
    /// the canonical form; on any failure the ledger is untouched.
    pub fn create_post(
        &mut self,
        ctx: CreatePost,
        content: Vec<u8>,
        tx: &Vec<Instruction>,
        cur_index: usize,
        now: i64,
    ) -> (r: Result<(), ErrorCode>)
        requires
            old(self).wf(),
            ctx.user.wf(),
            ctx.memo_account.wf(),
            cur_index < tx@.len(),
        ensures
            final(self).wf(),
            r is Ok <==> (spec_find_post(old(self).posts@, ctx.user@, now as int) is None
                && post_content_ok(content@) && linked_call_ok(
                old(self).memo_program@,
                tx@,
                cur_index as int,
                canonical_payload_spec(ctx.user@, now as int, content@),
            )),
            r is Err ==> *final(self) == *old(self),
            spec_find_post(old(self).posts@, ctx.user@, now as int) is Some ==> r == Err::<
                (),
                ErrorCode,
            >(ErrorCode::AddressInUse),
            spec_find_post(old(self).posts@, ctx.user@, now as int) is None && !post_content_ok(
                content@,
            ) ==> r == Err::<(), ErrorCode>(ErrorCode::PostTooLong),
            spec_find_post(old(self).posts@, ctx.user@, now as int) is None && post_content_ok(
                content@,
            ) && (cur_index + 1 >= tx@.len() || tx@[cur_index + 1].program_id@ != old(
                self,
            ).memo_program@) ==> r == Err::<(), ErrorCode>(ErrorCode::InvalidMemoInstruction),
            spec_find_post(old(self).posts@, ctx.user@, now as int) is None && post_content_ok(
                content@,
            ) && cur_index + 1 < tx@.len() && tx@[cur_index + 1].program_id@ == old(
                self,
            ).memo_program@ && tx@[cur_index + 1].data@ != canonical_payload_spec(
                ctx.user@,
                now as int,
                content@,
            ) ==> r == Err::<(), ErrorCode>(ErrorCode::InvalidMemoData),
            r is Ok ==> final(self).posts@ == old(self).posts@.push(
                (Post { author: ctx.user, timestamp: now, memo_account: ctx.memo_account }),
            ),
            r is Ok ==> (spec_find_post(final(self).posts@, ctx.user@, now as int) matches Some(p)
                && p.author@ == ctx.user@ && p.timestamp == now && p.memo_account@
                == ctx.memo_account@),
            final(self).profiles == old(self).profiles,
            final(self).messages == old(self).messages,
            final(self).memo_program == old(self).memo_program,
    {
        let ghost user_v = ctx.user@;
        let addr = derive_post_address(&ctx.user, now);
        match self.find_post_index(&addr.author, addr.timestamp) {
            Some(_) => {
                return Err(ErrorCode::AddressInUse);
            },
            None => {},
        }
        if let Err(e) = validate_post_content(&content) {
            return Err(e);
        }
        let expected = canonical_payload(&ctx.user, now, &content);
        if let Err(e) = verify_linked_logging_call(&self.memo_program, tx, cur_index, &expected) {
            return Err(e);
        }
        let p = Post { author: ctx.user, timestamp: now, memo_account: ctx.memo_account };
        let ghost pre = self.posts@;
        let ghost pg = p;
        self.posts.push(p);
        proof {
            lemma_find_post_push(pre, pg, user_v, now as int);
            assert forall|i: int, j: int|
                0 <= i < j < self.posts@.len() implies !(self.posts@[i].author@
                == self.posts@[j].author@ && self.posts@[i].timestamp
                == self.posts@[j].timestamp) by {
                if j == pre.len() {
                    assert(self.posts@[i] == pre[i]);
                }
            }
        }
        Ok(())
    }
}

/// The resolved accounts of a send_message instruction: the signing sender
/// and the targeted recipient's Profile slot. The host funds a fresh,
/// uniquely allocated Message slot; its handle is the record's index.
pub struct SendMessage {
    pub sender: Identity,
    pub recipient_profile: ProfileAddress,
}

impl Ledger {
    /// Allocates a Message record from `ctx.sender` to the owner of the
    /// profile at `ctx.recipient_profile`. The stored recipient is copied
    /// from that Profile record's owner field at send time, never taken from
    /// the caller, so a message can only be addressed to an identity that
    /// really owns the targeted profile. The ciphertext is stored verbatim
    /// and the record starts unread.
    ///
    /// Fails with MessageTooLong on an oversized ciphertext; the ledger is
    /// then untouched.
    pub fn send_message(&mut self, ctx: SendMessage, encrypted_content: Vec<u8>, now: i64) -> (r:
        Result<(), ErrorCode>)
        requires
            old(self).wf(),
            ctx.sender.wf(),
            ctx.recipient_profile.wf(),
            spec_find_profile(old(self).profiles@, ctx.recipient_profile.owner@) is Some,
        ensures
            final(self).wf(),
            r is Ok <==> message_content_ok(encrypted_content@),
            !message_content_ok(encrypted_content@) ==> r == Err::<(), ErrorCode>(
                ErrorCode::MessageTooLong,
            ),
            r is Err ==> *final(self) == *old(self),
            r is Ok ==> final(self).messages@.len() == old(self).messages@.len() + 1,
            r is Ok ==> ({
                let m = final(self).messages@.last();
                &&& m.sender@ == ctx.sender@
                &&& m.recipient@ == spec_find_profile(
                    old(self).profiles@,
                    ctx.recipient_profile.owner@,
                )->Some_0.owner@
                &&& m.encrypted_content@ == encrypted_content@
                &&& m.timestamp == now
                &&& m.read == false
            }),
            r is Ok ==> forall|j: int|
                0 <= j < old(self).messages@.len() ==> final(self).messages@[j] == old(
                    self,
                ).messages@[j],
            final(self).profiles == old(self).profiles,
            final(self).posts == old(self).posts,
            final(self).memo_program == old(self).memo_program,
    {
        let i = match self.find_profile_index(&ctx.recipient_profile.owner) {
            Some(i) => i,
            None => {
                proof {
                    assert(false);
                }
                return Err(ErrorCode::MessageTooLong);
            },
        };
        if let Err(e) = validate_message_content(&encrypted_content) {
            return Err(e);
        }
        let recipient = self.profiles[i].owner.duplicate();
        let m = Message {
            sender: ctx.sender,
            recipient,
            encrypted_content,
            timestamp: now,
            read: false,
        };
        self.messages.push(m);
        Ok(())
    }
}

/// The resolved accounts of a mark_message_read instruction: the targeted
/// Message record's handle and the signer claiming to be its recipient.
pub struct MarkMessageRead {
    pub message: usize,
    pub user: Identity,
}

impl Ledger {
    /// Marks the message at handle `ctx.message` as read.
    ///
    /// Only the stored recipient may do so — any other signer, the sender
    /// included, is rejected with Unauthorized and the ledger is untouched.
    /// Re-marking an already-read message is a no-op success. No other field
    /// is ever mutated.
    pub fn mark_message_read(&mut self, ctx: MarkMessageRead) -> (r: Result<(), ErrorCode>)
        requires
            old(self).wf(),
            ctx.user.wf(),
            ctx.message < old(self).messages@.len(),
        ensures
            final(self).wf(),
            r is Ok <==> old(self).messages@[ctx.message as int].recipient@ == ctx.user@,
            r is Err ==> r == Err::<(), ErrorCode>(ErrorCode::Unauthorized) && *final(self)
                == *old(self),
            r is Ok ==> ({
                let m1 = old(self).messages@[ctx.message as int];
                let m2 = final(self).messages@[ctx.message as int];
                &&& final(self).messages@.len() == old(self).messages@.len()
                &&& m2.sender == m1.sender
                &&& m2.recipient == m1.recipient
                &&& m2.encrypted_content == m1.encrypted_content
                &&& m2.timestamp == m1.timestamp
                &&& m2.read == true
            }),
            r is Ok ==> forall|j: int|
                0 <= j < old(self).messages@.len() && j != ctx.message ==> final(self).messages@[j]
                    == old(self).messages@[j],
            final(self).profiles == old(self).profiles,
            final(self).posts == old(self).posts,
            final(self).memo_program == old(self).memo_program,
    {
        let i = ctx.message;
        if let Err(e) = require_signer(&ctx.user, &self.messages[i].recipient) {
            return Err(e);
        }
        let entry = &mut self.messages[i];
        entry.read = true;
        proof {
            assert(forall|j: int|
                0 <= j < self.messages@.len() && j != i ==> self.messages@[j] == old(
                    self,
                ).messages@[j]);
        }
        Ok(())
    }
}

} // verus!
