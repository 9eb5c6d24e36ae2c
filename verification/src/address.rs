use vstd::prelude::*;
use vstd::bytes::{lemma_auto_spec_u64_to_from_le_bytes, spec_u64_to_le_bytes, u64_to_le_bytes};
use vstd::slice::slice_index_get;
use crate::constants::{
    CANONICAL_BUMP, COMMENT_REACTION_SEED, COMMENT_SEED, POST_REACTION_SEED, POST_SEED,
};

verus! {

/// The identity of a caller or owner. The execution substrate authenticates
/// it before any operation runs; the library never re-derives trust from
/// payload fields.
#[derive(Clone, Copy, Debug, PartialEq, Eq, Structural)]
pub struct AccountId {
    pub id: u64,
}

/// The storage address of an entity: the byte string that the address
/// deriver computes from the entity's namespaced seed tuple. Two entities
/// collide exactly when their seed tuples coincide, which is what makes the
/// occupancy check the duplicate-submission guard.
#[derive(Debug, PartialEq, Eq)]
pub struct Address {
    pub bytes: Vec<u8>,
}

impl View for Address {
    type V = Seq<u8>;

    open spec fn view(&self) -> Seq<u8> {
        self.bytes@
    }
}

/// The address of the post of `author` under `topic`: the post namespace
/// byte, the author identity, and the length-prefixed topic bytes.
/// Derivation is deterministic by construction; `lemma_post_address_injective`
/// shows that no two distinct seed tuples alias.
pub open spec fn spec_post_address(author: AccountId, topic: Seq<u8>) -> Seq<u8> {
    seq![POST_SEED] + spec_u64_to_le_bytes(author.id)
        + spec_u64_to_le_bytes(topic.len() as u64) + topic
}

/// The address of the comment of `author` with `content` under the post at
/// `parent_post`: the comment namespace byte, the author identity, the
/// length-prefixed content bytes, and the parent post address.
pub open spec fn spec_comment_address(
    author: AccountId,
    content: Seq<u8>,
    parent_post: Seq<u8>,
) -> Seq<u8> {
    seq![COMMENT_SEED] + spec_u64_to_le_bytes(author.id)
        + spec_u64_to_le_bytes(content.len() as u64) + content + parent_post
}

/// The address of the reaction of `author` on the post at `parent_post`:
/// the post-reaction namespace byte, the reactor identity, and the parent
/// post address. The reaction kind is deliberately absent, so one account
/// holds at most one reaction per post.
pub open spec fn spec_post_reaction_address(author: AccountId, parent_post: Seq<u8>) -> Seq<u8> {
    seq![POST_REACTION_SEED] + spec_u64_to_le_bytes(author.id) + parent_post
}

/// The address of the reaction of `author` on the comment at
/// `parent_comment`, built as for post reactions under its own namespace.
pub open spec fn spec_comment_reaction_address(
    author: AccountId,
    parent_comment: Seq<u8>,
) -> Seq<u8> {
    seq![COMMENT_REACTION_SEED] + spec_u64_to_le_bytes(author.id) + parent_comment
}

/// Appends all of `src` to `dst`.
pub fn append_bytes(dst: &mut Vec<u8>, src: &[u8])
    ensures
        final(dst)@ == old(dst)@ + src@,
{
    let ghost dst0 = old(dst)@;
    let mut i: usize = 0;
    while i < src.len()
        invariant
            i <= src@.len(),
            dst@ == dst0 + src@.subrange(0, i as int),
        decreases src@.len() - i,
    {
        let b = *slice_index_get(src, i);
        dst.push(b);
        proof {
            assert(dst0 + src@.subrange(0, i as int) + seq![src@[i as int]] =~= dst0
                + src@.subrange(0, i + 1 as int));
        }
        i = i + 1;
    }
    proof {
        assert(dst0 + src@.subrange(0, src@.len() as int) =~= dst0 + src@);
    }
}

/// Returns a fresh byte vector with the same contents as `src`.
pub fn copy_bytes(src: &Vec<u8>) -> (r: Vec<u8>)
    ensures
        r@ == src@,
{
    let mut r: Vec<u8> = Vec::new();
    append_bytes(&mut r, src.as_slice());
    proof {
        assert(Seq::<u8>::empty() + src@ =~= src@);
    }
    r
}

/// Returns a fresh address equal to `a`.
pub fn copy_address(a: &Address) -> (r: Address)
    ensures
        r@ == a@,
{
    Address { bytes: copy_bytes(&a.bytes) }
}

/// Derives the address and canonicalization byte of the post of `author`
/// under `topic`.
pub fn derive_post_address(author: AccountId, topic: &Vec<u8>) -> (r: (Address, u8))
    ensures
        r.0@ == spec_post_address(author, topic@),
        r.1 == CANONICAL_BUMP,
{
    let mut bytes: Vec<u8> = Vec::new();
    bytes.push(POST_SEED);
    let mut author_bytes = u64_to_le_bytes(author.id);
    bytes.append(&mut author_bytes);
    let mut len_bytes = u64_to_le_bytes(topic.len() as u64);
    bytes.append(&mut len_bytes);
    append_bytes(&mut bytes, topic.as_slice());
    proof {
        assert(bytes@ =~= spec_post_address(author, topic@));
    }
    (Address { bytes }, CANONICAL_BUMP)
}

/// Derives the address and canonicalization byte of the comment of `author`
/// with `content` under the post at `parent_post`.
pub fn derive_comment_address(
    author: AccountId,
    content: &Vec<u8>,
    parent_post: &Address,
) -> (r: (Address, u8))
    ensures
        r.0@ == spec_comment_address(author, content@, parent_post@),
        r.1 == CANONICAL_BUMP,
{
    let mut bytes: Vec<u8> = Vec::new();
    bytes.push(COMMENT_SEED);
    let mut author_bytes = u64_to_le_bytes(author.id);
    bytes.append(&mut author_bytes);
    let mut len_bytes = u64_to_le_bytes(content.len() as u64);
    bytes.append(&mut len_bytes);
    append_bytes(&mut bytes, content.as_slice());
    append_bytes(&mut bytes, parent_post.bytes.as_slice());
    proof {
        assert(bytes@ =~= spec_comment_address(author, content@, parent_post@));
    }
    (Address { bytes }, CANONICAL_BUMP)
}

/// Derives the address and canonicalization byte of the reaction of
/// `author` on the post at `parent_post`.
pub fn derive_post_reaction_address(author: AccountId, parent_post: &Address) -> (r: (Address, u8))
    ensures
        r.0@ == spec_post_reaction_address(author, parent_post@),
        r.1 == CANONICAL_BUMP,
{
    let mut bytes: Vec<u8> = Vec::new();
    bytes.push(POST_REACTION_SEED);
    let mut author_bytes = u64_to_le_bytes(author.id);
    bytes.append(&mut author_bytes);
    append_bytes(&mut bytes, parent_post.bytes.as_slice());
    proof {
        assert(bytes@ =~= spec_post_reaction_address(author, parent_post@));
    }
    (Address { bytes }, CANONICAL_BUMP)
}

/// Derives the address and canonicalization byte of the reaction of
/// `author` on the comment at `parent_comment`.
pub fn derive_comment_reaction_address(
    author: AccountId,
    parent_comment: &Address,
) -> (r: (Address, u8))
    ensures
        r.0@ == spec_comment_reaction_address(author, parent_comment@),
        r.1 == CANONICAL_BUMP,
{
    let mut bytes: Vec<u8> = Vec::new();
    bytes.push(COMMENT_REACTION_SEED);
    let mut author_bytes = u64_to_le_bytes(author.id);
    bytes.append(&mut author_bytes);
    append_bytes(&mut bytes, parent_comment.bytes.as_slice());
    proof {
        assert(bytes@ =~= spec_comment_reaction_address(author, parent_comment@));
    }
    (Address { bytes }, CANONICAL_BUMP)
}

/// Compares two addresses byte for byte.
pub fn address_eq(a: &Address, b: &Address) -> (r: bool)
    ensures
        r == (a@ == b@),
{
    if a.bytes.len() != b.bytes.len() {
        return false;
    }
    let n = a.bytes.len();
    let mut i: usize = 0;
    while i < n
        invariant
            n == a.bytes@.len() == b.bytes@.len(),
            i <= n,
            forall|j: int| 0 <= j < i ==> a.bytes@[j] == b.bytes@[j],
        decreases n - i,
    {
        if a.bytes[i] != b.bytes[i] {
            return false;
        }
        i = i + 1;
    }
    proof {
        assert(a.bytes@ =~= b.bytes@);
    }
    true
}

proof fn lemma_u64_le_injective(x: u64, y: u64)
    requires
        spec_u64_to_le_bytes(x) == spec_u64_to_le_bytes(y),
    ensures
        x == y,
{
    lemma_auto_spec_u64_to_from_le_bytes();
}

/// Splits an address of the shape tag, author bytes, rest into its parts.
proof fn lemma_tagged_parts(tag: u8, a: u64, rest: Seq<u8>)
    ensures
        ({
            let s = seq![tag] + spec_u64_to_le_bytes(a) + rest;
            &&& s.len() == 9 + rest.len()
            &&& s[0] == tag
            &&& s.subrange(1, 9) == spec_u64_to_le_bytes(a)
            &&& s.subrange(9, s.len() as int) == rest
        }),
{
    lemma_auto_spec_u64_to_from_le_bytes();
    let s = seq![tag] + spec_u64_to_le_bytes(a) + rest;
    assert(s.subrange(1, 9) =~= spec_u64_to_le_bytes(a));
    assert(s.subrange(9, s.len() as int) =~= rest);
}

/// Splits an address of the shape tag, author bytes, length prefix, rest
/// into its parts.
proof fn lemma_header_parts(tag: u8, a: u64, l: u64, rest: Seq<u8>)
    ensures
        ({
            let s = seq![tag] + spec_u64_to_le_bytes(a) + spec_u64_to_le_bytes(l) + rest;
            &&& s.len() == 17 + rest.len()
            &&& s[0] == tag
            &&& s.subrange(1, 9) == spec_u64_to_le_bytes(a)
            &&& s.subrange(9, 17) == spec_u64_to_le_bytes(l)
            &&& s.subrange(17, s.len() as int) == rest
        }),
{
    lemma_auto_spec_u64_to_from_le_bytes();
    let s = seq![tag] + spec_u64_to_le_bytes(a) + spec_u64_to_le_bytes(l) + rest;
    assert(s.subrange(1, 9) =~= spec_u64_to_le_bytes(a));
    assert(s.subrange(9, 17) =~= spec_u64_to_le_bytes(l));
    assert(s.subrange(17, s.len() as int) =~= rest);
}

/// Post addresses never alias: equal addresses come from equal authors and
/// equal topics. Together with determinism of the derivation this makes the
/// occupancy check a faithful guard on the logical identity.
pub proof fn lemma_post_address_injective(a1: AccountId, t1: Seq<u8>, a2: AccountId, t2: Seq<u8>)
    requires
        t1.len() <= u64::MAX,
        t2.len() <= u64::MAX,
        spec_post_address(a1, t1) == spec_post_address(a2, t2),
    ensures
        a1 == a2,
        t1 == t2,
{
    lemma_header_parts(POST_SEED, a1.id, t1.len() as u64, t1);
    lemma_header_parts(POST_SEED, a2.id, t2.len() as u64, t2);
    lemma_u64_le_injective(a1.id, a2.id);
    assert(t1 == t2);
}

/// Comment addresses never alias: equal addresses come from equal authors,
/// equal contents, and equal parent posts.
pub proof fn lemma_comment_address_injective(
    a1: AccountId,
    c1: Seq<u8>,
    p1: Seq<u8>,
    a2: AccountId,
    c2: Seq<u8>,
    p2: Seq<u8>,
)
    requires
        c1.len() <= u64::MAX,
        c2.len() <= u64::MAX,
        spec_comment_address(a1, c1, p1) == spec_comment_address(a2, c2, p2),
    ensures
        a1 == a2,
        c1 == c2,
        p1 == p2,
{
    let s1 = spec_comment_address(a1, c1, p1);
    let s2 = spec_comment_address(a2, c2, p2);
    assert(s1 =~= seq![COMMENT_SEED] + spec_u64_to_le_bytes(a1.id)
        + spec_u64_to_le_bytes(c1.len() as u64) + (c1 + p1));
    assert(s2 =~= seq![COMMENT_SEED] + spec_u64_to_le_bytes(a2.id)
        + spec_u64_to_le_bytes(c2.len() as u64) + (c2 + p2));
    lemma_header_parts(COMMENT_SEED, a1.id, c1.len() as u64, c1 + p1);
    lemma_header_parts(COMMENT_SEED, a2.id, c2.len() as u64, c2 + p2);
    lemma_u64_le_injective(a1.id, a2.id);
    lemma_u64_le_injective(c1.len() as u64, c2.len() as u64);
    let r1 = c1 + p1;
    let r2 = c2 + p2;
    assert(r1 == r2);
    assert(c1 =~= r1.subrange(0, c1.len() as int));
    assert(c2 =~= r2.subrange(0, c2.len() as int));
    assert(p1 =~= r1.subrange(c1.len() as int, r1.len() as int));
    assert(p2 =~= r2.subrange(c2.len() as int, r2.len() as int));
}

/// Post-reaction addresses never alias: equal addresses come from equal
/// reactors and equal parent posts, which is what limits each account to one
/// reaction per post.
pub proof fn lemma_post_reaction_address_injective(
    a1: AccountId,
    p1: Seq<u8>,
    a2: AccountId,
    p2: Seq<u8>,
)
    requires
        spec_post_reaction_address(a1, p1) == spec_post_reaction_address(a2, p2),
    ensures
        a1 == a2,
        p1 == p2,
{
    lemma_tagged_parts(POST_REACTION_SEED, a1.id, p1);
    lemma_tagged_parts(POST_REACTION_SEED, a2.id, p2);
    lemma_u64_le_injective(a1.id, a2.id);
}

/// Comment-reaction addresses never alias: equal addresses come from equal
/// reactors and equal parent comments.
pub proof fn lemma_comment_reaction_address_injective(
    a1: AccountId,
    p1: Seq<u8>,
    a2: AccountId,
    p2: Seq<u8>,
)
    requires
        spec_comment_reaction_address(a1, p1) == spec_comment_reaction_address(a2, p2),
    ensures
        a1 == a2,
        p1 == p2,
{
    lemma_tagged_parts(COMMENT_REACTION_SEED, a1.id, p1);
    lemma_tagged_parts(COMMENT_REACTION_SEED, a2.id, p2);
    lemma_u64_le_injective(a1.id, a2.id);
}

/// Every derived address opens with the namespace byte of its entity kind,
/// so addresses of distinct kinds never alias.
pub proof fn lemma_address_namespaced(
    author: AccountId,
    topic: Seq<u8>,
    content: Seq<u8>,
    parent: Seq<u8>,
)
    ensures
        spec_post_address(author, topic)[0] == POST_SEED,
        spec_comment_address(author, content, parent)[0] == COMMENT_SEED,
        spec_post_reaction_address(author, parent)[0] == POST_REACTION_SEED,
        spec_comment_reaction_address(author, parent)[0] == COMMENT_REACTION_SEED,
{
    lemma_auto_spec_u64_to_from_le_bytes();
    assert(spec_u64_to_le_bytes(author.id).len() == 8);
}

} // verus!
