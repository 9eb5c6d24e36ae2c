use depress::address::{derive_post_address, derive_post_reaction_address, AccountId};
use depress::constants::{CANONICAL_BUMP, POST_REACTION_SPACE, POST_SPACE};
use depress::errors::DepressError;
use depress::forum::Forum;
use depress::instructions::{
    add_post, add_reaction_post, remove_post, remove_reaction_post, validate,
};
use depress::states::ReactionType;

fn account(id: u64) -> AccountId {
    AccountId { id }
}

#[test]
fn create_post_initializes_counters() {
    let mut f = Forum::new();
    let a = account(1);
    let ev = add_post(&mut f, a, b"rust".to_vec(), b"hello".to_vec()).unwrap();
    assert_eq!(ev.post_author, a);
    assert_eq!(ev.topic, b"rust".to_vec());
    let (addr, bump) = derive_post_address(a, &b"rust".to_vec());
    assert_eq!(bump, CANONICAL_BUMP);
    let p = f.get_post(&addr).unwrap();
    assert_eq!(p.post_author, a);
    assert_eq!(p.topic, b"rust".to_vec());
    assert_eq!(p.content, b"hello".to_vec());
    assert_eq!(p.likes, 0);
    assert_eq!(p.dislikes, 0);
    assert_eq!(p.comment_count, 0);
    assert_eq!(p.bump, CANONICAL_BUMP);
}

#[test]
fn create_post_duplicate_topic_author_fails() {
    let mut f = Forum::new();
    let a = account(1);
    add_post(&mut f, a, b"rust".to_vec(), b"hello".to_vec()).unwrap();
    // Same (topic, author) fails regardless of content.
    let r = add_post(&mut f, a, b"rust".to_vec(), b"other content".to_vec());
    assert_eq!(r.unwrap_err(), DepressError::DuplicateEntity);
    // A different topic for the same author goes through.
    add_post(&mut f, a, b"verus".to_vec(), b"hello".to_vec()).unwrap();
    // The same topic for a different author goes through.
    add_post(&mut f, account(2), b"rust".to_vec(), b"hello".to_vec()).unwrap();
}

#[test]
fn create_post_topic_too_long_leaves_no_record() {
    let mut f = Forum::new();
    let a = account(1);
    let long_topic = vec![b'x'; 33];
    let r = add_post(&mut f, a, long_topic.clone(), b"hello".to_vec());
    assert_eq!(r.unwrap_err(), DepressError::TopicTooLong);
    let (addr, _) = derive_post_address(a, &long_topic);
    assert!(f.get_post(&addr).is_none());
}

#[test]
fn create_post_content_too_long_leaves_no_record() {
    let mut f = Forum::new();
    let a = account(1);
    let r = add_post(&mut f, a, b"rust".to_vec(), vec![b'y'; 501]);
    assert_eq!(r.unwrap_err(), DepressError::ContentTooLong);
    let (addr, _) = derive_post_address(a, &b"rust".to_vec());
    assert!(f.get_post(&addr).is_none());
}

#[test]
fn create_post_accepts_exact_bounds() {
    let mut f = Forum::new();
    let a = account(1);
    add_post(&mut f, a, vec![b'x'; 32], vec![b'y'; 500]).unwrap();
}

#[test]
fn validate_checks_byte_length() {
    assert!(validate(&vec![0u8; 32], 32, DepressError::TopicTooLong).is_ok());
    assert_eq!(
        validate(&vec![0u8; 33], 32, DepressError::TopicTooLong).unwrap_err(),
        DepressError::TopicTooLong
    );
}

#[test]
fn remove_post_refunds_author_only() {
    let mut f = Forum::new();
    let a = account(1);
    add_post(&mut f, a, b"rust".to_vec(), b"hello".to_vec()).unwrap();
    let (addr, _) = derive_post_address(a, &b"rust".to_vec());
    // Someone else cannot close the post.
    let r = remove_post(&mut f, account(2), &addr);
    assert_eq!(r.unwrap_err(), DepressError::InvalidOwner);
    assert!(f.get_post(&addr).is_some());
    // The author can; the refund goes to the stored author.
    let (refund, ev) = remove_post(&mut f, a, &addr).unwrap();
    assert_eq!(refund.to, a);
    assert_eq!(refund.amount, POST_SPACE);
    assert_eq!(ev.post_author, a);
    assert_eq!(ev.topic, b"rust".to_vec());
    assert!(f.get_post(&addr).is_none());
    // Closing it again finds nothing.
    let r = remove_post(&mut f, a, &addr);
    assert_eq!(r.unwrap_err(), DepressError::NotFound);
}

#[test]
fn post_address_reusable_after_close() {
    let mut f = Forum::new();
    let a = account(1);
    add_post(&mut f, a, b"rust".to_vec(), b"hello".to_vec()).unwrap();
    let (addr, _) = derive_post_address(a, &b"rust".to_vec());
    remove_post(&mut f, a, &addr).unwrap();
    // The store permits reuse of a closed address for a fresh record.
    add_post(&mut f, a, b"rust".to_vec(), b"again".to_vec()).unwrap();
    let p = f.get_post(&addr).unwrap();
    assert_eq!(p.content, b"again".to_vec());
}

#[test]
fn react_post_like_round_trip_restores_likes() {
    let mut f = Forum::new();
    let a = account(1);
    let b = account(2);
    add_post(&mut f, a, b"rust".to_vec(), b"hello".to_vec()).unwrap();
    let (post, _) = derive_post_address(a, &b"rust".to_vec());
    let ev = add_reaction_post(&mut f, b, &post, ReactionType::Like).unwrap();
    assert_eq!(ev.author, b);
    assert_eq!(ev.parent_post, post);
    assert_eq!(ev.reaction, 0);
    assert_eq!(f.get_post(&post).unwrap().likes, 1);
    let (raddr, _) = derive_post_reaction_address(b, &post);
    let (refund, rev) = remove_reaction_post(&mut f, b, &raddr).unwrap();
    assert_eq!(refund.to, b);
    assert_eq!(refund.amount, POST_REACTION_SPACE);
    assert_eq!(rev.reaction, 0);
    assert_eq!(f.get_post(&post).unwrap().likes, 0);
    assert!(f.get_post_reaction(&raddr).is_none());
}

#[test]
fn dislike_post_uses_discriminant_one() {
    let mut f = Forum::new();
    let a = account(1);
    let b = account(2);
    add_post(&mut f, a, b"rust".to_vec(), b"hello".to_vec()).unwrap();
    let (post, _) = derive_post_address(a, &b"rust".to_vec());
    let ev = add_reaction_post(&mut f, b, &post, ReactionType::Dislike).unwrap();
    assert_eq!(ev.reaction, 1);
    let p = f.get_post(&post).unwrap();
    assert_eq!(p.dislikes, 1);
    assert_eq!(p.likes, 0);
    // Removal reads the kind from the stored record: the dislike counter
    // moves back down, the like counter never moves.
    let (raddr, _) = derive_post_reaction_address(b, &post);
    let (_, rev) = remove_reaction_post(&mut f, b, &raddr).unwrap();
    assert_eq!(rev.reaction, 1);
    let p = f.get_post(&post).unwrap();
    assert_eq!(p.dislikes, 0);
    assert_eq!(p.likes, 0);
}

#[test]
fn remove_reaction_of_closed_post_fails_not_found() {
    let mut f = Forum::new();
    let a = account(1);
    let b = account(2);
    add_post(&mut f, a, b"rust".to_vec(), b"hello".to_vec()).unwrap();
    let (post, _) = derive_post_address(a, &b"rust".to_vec());
    add_reaction_post(&mut f, b, &post, ReactionType::Like).unwrap();
    // The author closes the post; the reaction record dangles.
    remove_post(&mut f, a, &post).unwrap();
    let (raddr, _) = derive_post_reaction_address(b, &post);
    let r = remove_reaction_post(&mut f, b, &raddr);
    assert_eq!(r.unwrap_err(), DepressError::NotFound);
    // The dangling record itself is still there.
    assert!(f.get_post_reaction(&raddr).is_some());
}

#[test]
fn react_post_twice_fails_duplicate() {
    let mut f = Forum::new();
    let a = account(1);
    let b = account(2);
    add_post(&mut f, a, b"rust".to_vec(), b"hello".to_vec()).unwrap();
    let (post, _) = derive_post_address(a, &b"rust".to_vec());
    add_reaction_post(&mut f, b, &post, ReactionType::Like).unwrap();
    // A second reaction by the same account fails, even of the other kind.
    let r = add_reaction_post(&mut f, b, &post, ReactionType::Dislike);
    assert_eq!(r.unwrap_err(), DepressError::DuplicateEntity);
    assert_eq!(f.get_post(&post).unwrap().likes, 1);
    assert_eq!(f.get_post(&post).unwrap().dislikes, 0);
}

#[test]
fn remove_reaction_twice_fails_not_found() {
    let mut f = Forum::new();
    let a = account(1);
    let b = account(2);
    add_post(&mut f, a, b"rust".to_vec(), b"hello".to_vec()).unwrap();
    let (post, _) = derive_post_address(a, &b"rust".to_vec());
    add_reaction_post(&mut f, b, &post, ReactionType::Like).unwrap();
    let (raddr, _) = derive_post_reaction_address(b, &post);
    remove_reaction_post(&mut f, b, &raddr).unwrap();
    let likes_after = f.get_post(&post).unwrap().likes;
    let dislikes_after = f.get_post(&post).unwrap().dislikes;
    let r = remove_reaction_post(&mut f, b, &raddr);
    assert_eq!(r.unwrap_err(), DepressError::NotFound);
    assert_eq!(f.get_post(&post).unwrap().likes, likes_after);
    assert_eq!(f.get_post(&post).unwrap().dislikes, dislikes_after);
}

#[test]
fn remove_reaction_wrong_owner_fails() {
    let mut f = Forum::new();
    let a = account(1);
    let b = account(2);
    add_post(&mut f, a, b"rust".to_vec(), b"hello".to_vec()).unwrap();
    let (post, _) = derive_post_address(a, &b"rust".to_vec());
    add_reaction_post(&mut f, b, &post, ReactionType::Like).unwrap();
    let (raddr, _) = derive_post_reaction_address(b, &post);
    let r = remove_reaction_post(&mut f, a, &raddr);
    assert_eq!(r.unwrap_err(), DepressError::InvalidOwner);
    assert_eq!(f.get_post(&post).unwrap().likes, 1);
}

#[test]
fn underflow_guard_blocks_decrement_at_zero() {
    let mut f = Forum::new();
    let a = account(1);
    let b = account(2);
    add_post(&mut f, a, b"rust".to_vec(), b"hello".to_vec()).unwrap();
    let (post, _) = derive_post_address(a, &b"rust".to_vec());
    add_reaction_post(&mut f, b, &post, ReactionType::Like).unwrap();
    // The author closes the post and recreates it under the same topic:
    // the fresh record shows zero likes, while the old reaction record
    // still points at the same parent address.
    remove_post(&mut f, a, &post).unwrap();
    add_post(&mut f, a, b"rust".to_vec(), b"hello".to_vec()).unwrap();
    assert_eq!(f.get_post(&post).unwrap().likes, 0);
    let (raddr, _) = derive_post_reaction_address(b, &post);
    let r = remove_reaction_post(&mut f, b, &raddr);
    assert_eq!(r.unwrap_err(), DepressError::InvalidReactionState);
    assert_eq!(f.get_post(&post).unwrap().likes, 0);
    assert_eq!(f.get_post(&post).unwrap().dislikes, 0);
}

#[test]
fn react_missing_post_fails_not_found() {
    let mut f = Forum::new();
    let a = account(1);
    let b = account(2);
    let (post, _) = derive_post_address(a, &b"rust".to_vec());
    let r = add_reaction_post(&mut f, b, &post, ReactionType::Like);
    assert_eq!(r.unwrap_err(), DepressError::NotFound);
}
