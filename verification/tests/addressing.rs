use depress::address::{
    derive_comment_address, derive_comment_reaction_address, derive_post_address,
    derive_post_reaction_address, AccountId,
};
use depress::constants::{
    CANONICAL_BUMP, COMMENT_REACTION_SEED, COMMENT_REACTION_SPACE, COMMENT_SEED, COMMENT_SPACE,
    POST_REACTION_SEED, POST_REACTION_SPACE, POST_SEED, POST_SPACE,
};

fn account(id: u64) -> AccountId {
    AccountId { id }
}

#[test]
fn derivation_is_deterministic() {
    let a = account(7);
    let (x, bx) = derive_post_address(a, &b"rust".to_vec());
    let (y, by) = derive_post_address(a, &b"rust".to_vec());
    assert_eq!(x, y);
    assert_eq!(bx, CANONICAL_BUMP);
    assert_eq!(by, CANONICAL_BUMP);
}

#[test]
fn distinct_seeds_give_distinct_addresses() {
    let a = account(7);
    let b = account(8);
    let (x, _) = derive_post_address(a, &b"rust".to_vec());
    let (y, _) = derive_post_address(a, &b"verus".to_vec());
    let (z, _) = derive_post_address(b, &b"rust".to_vec());
    assert_ne!(x, y);
    assert_ne!(x, z);
    assert_ne!(y, z);
}

#[test]
fn addresses_are_namespaced_by_kind() {
    let a = account(7);
    let (post, _) = derive_post_address(a, &b"rust".to_vec());
    let (comment, _) = derive_comment_address(a, &b"rust".to_vec(), &post);
    let (pr, _) = derive_post_reaction_address(a, &post);
    let (cr, _) = derive_comment_reaction_address(a, &comment);
    assert_eq!(post.bytes[0], POST_SEED);
    assert_eq!(comment.bytes[0], COMMENT_SEED);
    assert_eq!(pr.bytes[0], POST_REACTION_SEED);
    assert_eq!(cr.bytes[0], COMMENT_REACTION_SEED);
}

#[test]
fn address_layout_is_tag_author_payload() {
    // One namespace byte, eight author bytes, an eight-byte length prefix,
    // then the topic itself.
    let (post, _) = derive_post_address(account(7), &b"rust".to_vec());
    assert_eq!(post.bytes.len(), 1 + 8 + 8 + 4);
    // A reaction address is one namespace byte, eight reactor bytes, and
    // the parent address.
    let (pr, _) = derive_post_reaction_address(account(9), &post);
    assert_eq!(pr.bytes.len(), 1 + 8 + post.bytes.len());
}

#[test]
fn storage_costs_are_fixed() {
    assert_eq!(POST_SPACE, 585);
    assert_eq!(COMMENT_SPACE, 598);
    assert_eq!(POST_REACTION_SPACE, 75);
    assert_eq!(COMMENT_REACTION_SPACE, 592);
}

#[test]
fn comment_address_separates_content_from_parent() {
    // The length prefix keeps the content and the parent address apart:
    // moving a byte across the boundary changes the address.
    let a = account(7);
    let (post1, _) = derive_post_address(a, &b"ab".to_vec());
    let (post2, _) = derive_post_address(a, &b"b".to_vec());
    let (c1, _) = derive_comment_address(a, &b"x".to_vec(), &post1);
    let (c2, _) = derive_comment_address(a, &b"x".to_vec(), &post2);
    assert_ne!(c1, c2);
}
