use vstd::prelude::*;
use crate::identity::Identity;

verus! {

/// The bytes of `{"type":"post","author":"`.
pub open spec fn frag_head() -> Seq<u8> {
    seq![
        123u8, 34u8, 116u8, 121u8, 112u8, 101u8, 34u8, 58u8, 34u8, 112u8, 111u8, 115u8, 116u8,
        34u8, 44u8, 34u8, 97u8, 117u8, 116u8, 104u8, 111u8, 114u8, 34u8, 58u8, 34u8,
    ]
}

/// The bytes of `","ts":`.
pub open spec fn frag_ts() -> Seq<u8> {
    seq![34u8, 44u8, 34u8, 116u8, 115u8, 34u8, 58u8]
}

/// The bytes of `,"content":"`.
pub open spec fn frag_content() -> Seq<u8> {
    seq![44u8, 34u8, 99u8, 111u8, 110u8, 116u8, 101u8, 110u8, 116u8, 34u8, 58u8, 34u8]
}

/// The bytes of `"}`.
pub open spec fn frag_tail() -> Seq<u8> {
    seq![34u8, 125u8]
}

/// The decimal digits of n, most significant first.
pub open spec fn dec_u64(n: nat) -> Seq<u8>
    decreases n,
{
    if n < 10 {
        seq![(48 + n) as u8]
    } else {
        dec_u64(n / 10) + seq![(48 + n % 10) as u8]
    }
}

/// The decimal text of t: a minus sign for a negative value, then the digits
/// of its magnitude.
pub open spec fn dec_i64(t: int) -> Seq<u8> {
    if t >= 0 {
        dec_u64(t as nat)
    } else {
        seq![45u8] + dec_u64((-t) as nat)
    }
}

/// The base58 text of a 32-byte key: the canonical printed form of an
/// identity. It is a function of the key bytes alone.
pub uninterp spec fn base58_of(key: Seq<u8>) -> Seq<u8>;

/// The canonical logging payload of a post: a fixed-key object with keys in
/// fixed order, the author in canonical base58 form, the timestamp in
/// decimal, and the content verbatim (structural framing only; content bytes
/// are not escaped).
pub open spec fn canonical_payload_spec(author: Seq<u8>, ts: int, content: Seq<u8>) -> Seq<u8> {
    frag_head() + base58_of(author) + frag_ts() + dec_i64(ts) + frag_content() + content
        + frag_tail()
}

/// Relies on the `Display` impl of `solana_program::pubkey::Pubkey`, which
/// prints the base58 text of the 32 key bytes and depends on them alone.
#[verifier::external_body]
fn author_text(key: &Identity) -> (r: Vec<u8>)
    requires
        key.wf(),
    ensures
        r@ == base58_of(key@),
{
    let mut arr = [0u8; 32];
    arr.copy_from_slice(&key.bytes);
    solana_program::pubkey::Pubkey::new_from_array(arr).to_string().into_bytes()
}

/// Appends every byte of w to v, in order.
fn append_bytes(v: &mut Vec<u8>, w: &Vec<u8>)
    ensures
        final(v)@ == old(v)@ + w@,
{
    let ghost v0 = old(v)@;
    let mut i: usize = 0;
    proof {
        assert(v@ =~= v0 + w@.subrange(0, 0));
    }
    while i < w.len()
        invariant
            i <= w@.len(),
            v@ == v0 + w@.subrange(0, i as int),
        decreases w@.len() - i,
    {
        v.push(w[i]);
        proof {
            assert(v@ =~= v0 + w@.subrange(0, i + 1));
        }
        i += 1;
    }
    proof {
        assert(v@ =~= v0 + w@);
    }
}

fn frag_head_bytes() -> (r: Vec<u8>)
    ensures
        r@ == frag_head(),
{
    let mut v: Vec<u8> = Vec::new();
    v.push(123);
    v.push(34);
    v.push(116);
    v.push(121);
    v.push(112);
    v.push(101);
    v.push(34);
    v.push(58);
    v.push(34);
    v.push(112);
    v.push(111);
    v.push(115);
    v.push(116);
    v.push(34);
    v.push(44);
    v.push(34);
    v.push(97);
    v.push(117);
    v.push(116);
    v.push(104);
    v.push(111);
    v.push(114);
    v.push(34);
    v.push(58);
    v.push(34);
    proof {
        assert(v@ =~= frag_head());
    }
    v
}

fn frag_ts_bytes() -> (r: Vec<u8>)
    ensures
        r@ == frag_ts(),
{
    let mut v: Vec<u8> = Vec::new();
    v.push(34);
    v.push(44);
    v.push(34);
    v.push(116);
    v.push(115);
    v.push(34);
    v.push(58);
    proof {
        assert(v@ =~= frag_ts());
    }
    v
}

fn frag_content_bytes() -> (r: Vec<u8>)
    ensures
        r@ == frag_content(),
{
    let mut v: Vec<u8> = Vec::new();
    v.push(44);
    v.push(34);
    v.push(99);
    v.push(111);
    v.push(110);
    v.push(116);
    v.push(101);
    v.push(110);
    v.push(116);
    v.push(34);
    v.push(58);
    v.push(34);
    proof {
        assert(v@ =~= frag_content());
    }
    v
}

fn frag_tail_bytes() -> (r: Vec<u8>)
    ensures
        r@ == frag_tail(),
{
    let mut v: Vec<u8> = Vec::new();
    v.push(34);
    v.push(125);
    proof {
        assert(v@ =~= frag_tail());
    }
    v
}

/// The decimal digits of n, most significant first.
fn dec_bytes_u64(n: u64) -> (r: Vec<u8>)
    ensures
        r@ == dec_u64(n as nat),
{
    let mut rev: Vec<u8> = Vec::new();
    let mut m: u64 = n;
    proof {
        assert(Seq::<u8>::empty().reverse() =~= Seq::<u8>::empty());
        assert(dec_u64(n as nat) + Seq::<u8>::empty() =~= dec_u64(n as nat));
    }
    loop
        invariant_except_break
            dec_u64(n as nat) == dec_u64(m as nat) + rev@.reverse(),
        ensures
            dec_u64(n as nat) == rev@.reverse(),
            rev@.len() > 0,
        decreases m,
    {
        let ghost r0 = rev@;
        let ghost m0 = m as nat;
        let d: u8 = 48 + (m % 10) as u8;
        rev.push(d);
        m = m / 10;
        proof {
            assert(rev@.reverse() =~= seq![d] + r0.reverse());
            if m0 >= 10 {
                assert(dec_u64(m0) == dec_u64(m0 / 10) + seq![(48 + m0 % 10) as u8]);
                assert(dec_u64(m0) + r0.reverse() =~= dec_u64(m as nat) + rev@.reverse());
            } else {
                assert(dec_u64(m0) =~= seq![d]);
                assert(dec_u64(m0) + r0.reverse() =~= rev@.reverse());
            }
        }
        if m == 0 {
            break;
        }
    }
    let mut out: Vec<u8> = Vec::new();
    let mut i: usize = 0;
    proof {
        assert(out@ =~= rev@.reverse().subrange(0, 0));
    }
    while i < rev.len()
        invariant
            i <= rev@.len(),
            out@ == rev@.reverse().subrange(0, i as int),
            dec_u64(n as nat) == rev@.reverse(),
        decreases rev@.len() - i,
    {
        let idx: usize = rev.len() - 1 - i;
        let b: u8 = rev[idx];
        out.push(b);
        proof {
            assert(out@ =~= rev@.reverse().subrange(0, i + 1));
        }
        i += 1;
    }
    proof {
        assert(rev@.reverse().subrange(0, rev@.len() as int) =~= rev@.reverse());
        assert(out@ =~= dec_u64(n as nat));
    }
    out
}

/// The decimal text of t, sign included.
fn dec_bytes_i64(t: i64) -> (r: Vec<u8>)
    ensures
        r@ == dec_i64(t as int),
{
    if t >= 0 {
        dec_bytes_u64(t as u64)
    } else {
        let mut v: Vec<u8> = Vec::new();
        v.push(45);
        let wide: i128 = t as i128;
        let mag: u64 = (-wide) as u64;
        let d = dec_bytes_u64(mag);
        append_bytes(&mut v, &d);
        proof {
            assert(v@ =~= dec_i64(t as int));
        }
        v
    }
}

/// Rebuilds, from the call inputs alone, the exact payload that the sibling
/// logging instruction must carry for a post by this author, at this logical
/// time, with this content.
pub fn canonical_payload(author: &Identity, ts: i64, content: &Vec<u8>) -> (r: Vec<u8>)
    requires
        author.wf(),
    ensures
        r@ == canonical_payload_spec(author@, ts as int, content@),
{
    let mut v = frag_head_bytes();
    let a = author_text(author);
    append_bytes(&mut v, &a);
    let f1 = frag_ts_bytes();
    append_bytes(&mut v, &f1);
    let d = dec_bytes_i64(ts);
    append_bytes(&mut v, &d);
    let f2 = frag_content_bytes();
    append_bytes(&mut v, &f2);
    append_bytes(&mut v, content);
    let f3 = frag_tail_bytes();
    append_bytes(&mut v, &f3);
    proof {
        assert(v@ =~= canonical_payload_spec(author@, ts as int, content@));
    }
    v
}

} // verus!
