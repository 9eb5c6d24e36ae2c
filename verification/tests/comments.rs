use depress::address::{
    derive_comment_address, derive_comment_reaction_address, derive_post_address, AccountId,
};
use depress::constants::{COMMENT_REACTION_SPACE, COMMENT_SPACE};
use depress::errors::DepressError;
use depress::forum::Forum;
use depress::instructions::{
    add_comment, add_post, add_reaction_comment, remove_comment, remove_reaction_comment,
};
use depress::states::ReactionType;
use depress::{
    comment_add, comment_remove, dislike_comment, like_comment, post_add, post_remove,
    reaction_remove_comment,
};

fn account(id: u64) -> AccountId {
    AccountId { id }
}

#[test]
fn create_comment_increments_comment_count() {
    let mut f = Forum::new();
    let a = account(1);
    let b = account(2);
    add_post(&mut f, a, b"rust".to_vec(), b"hello".to_vec()).unwrap();
    let (post, _) = derive_post_address(a, &b"rust".to_vec());
    let ev = add_comment(&mut f, b, &post, b"nice".to_vec()).unwrap();
    assert_eq!(ev.author, b);
    assert_eq!(ev.parent_post, post);
    assert_eq!(ev.content, b"nice".to_vec());
    assert_eq!(f.get_post(&post).unwrap().comment_count, 1);
    let (caddr, _) = derive_comment_address(b, &b"nice".to_vec(), &post);
    let c = f.get_comment(&caddr).unwrap();
    assert_eq!(c.comment_author, b);
    assert_eq!(c.parent_post, post);
    assert_eq!(c.content, b"nice".to_vec());
    assert_eq!(c.likes, 0);
    assert_eq!(c.dislikes, 0);
}

#[test]
fn comment_too_long_leaves_no_record() {
    let mut f = Forum::new();
    let a = account(1);
    add_post(&mut f, a, b"rust".to_vec(), b"hello".to_vec()).unwrap();
    let (post, _) = derive_post_address(a, &b"rust".to_vec());
    let long = vec![b'z'; 501];
    let r = add_comment(&mut f, account(2), &post, long.clone());
    assert_eq!(r.unwrap_err(), DepressError::CommentTooLong);
    let (caddr, _) = derive_comment_address(account(2), &long, &post);
    assert!(f.get_comment(&caddr).is_none());
    assert_eq!(f.get_post(&post).unwrap().comment_count, 0);
}

#[test]
fn comment_duplicate_rules() {
    let mut f = Forum::new();
    let a = account(1);
    let b = account(2);
    add_post(&mut f, a, b"rust".to_vec(), b"hello".to_vec()).unwrap();
    let (post, _) = derive_post_address(a, &b"rust".to_vec());
    add_comment(&mut f, b, &post, b"nice".to_vec()).unwrap();
    // Identical resubmission by the same author fails.
    let r = add_comment(&mut f, b, &post, b"nice".to_vec());
    assert_eq!(r.unwrap_err(), DepressError::DuplicateEntity);
    // Different content from the same author is permitted.
    add_comment(&mut f, b, &post, b"still nice".to_vec()).unwrap();
    // The same content from a different author is permitted.
    add_comment(&mut f, account(3), &post, b"nice".to_vec()).unwrap();
    assert_eq!(f.get_post(&post).unwrap().comment_count, 3);
}

#[test]
fn comment_on_missing_post_fails_not_found() {
    let mut f = Forum::new();
    let (post, _) = derive_post_address(account(1), &b"rust".to_vec());
    let r = add_comment(&mut f, account(2), &post, b"nice".to_vec());
    assert_eq!(r.unwrap_err(), DepressError::NotFound);
}

#[test]
fn remove_comment_keeps_comment_count() {
    let mut f = Forum::new();
    let a = account(1);
    let b = account(2);
    add_post(&mut f, a, b"rust".to_vec(), b"hello".to_vec()).unwrap();
    let (post, _) = derive_post_address(a, &b"rust".to_vec());
    add_comment(&mut f, b, &post, b"nice".to_vec()).unwrap();
    let (caddr, _) = derive_comment_address(b, &b"nice".to_vec(), &post);
    // Only the comment author may close it.
    let r = remove_comment(&mut f, a, &caddr);
    assert_eq!(r.unwrap_err(), DepressError::InvalidOwner);
    let (refund, ev) = remove_comment(&mut f, b, &caddr).unwrap();
    assert_eq!(refund.to, b);
    assert_eq!(refund.amount, COMMENT_SPACE);
    assert_eq!(ev.author, b);
    assert_eq!(ev.parent_post, post);
    assert_eq!(ev.content, b"nice".to_vec());
    assert!(f.get_comment(&caddr).is_none());
    // The post's comment count deliberately stays where it was.
    assert_eq!(f.get_post(&post).unwrap().comment_count, 1);
}

#[test]
fn react_comment_round_trip_restores_likes() {
    let mut f = Forum::new();
    let a = account(1);
    let b = account(2);
    add_post(&mut f, a, b"rust".to_vec(), b"hello".to_vec()).unwrap();
    let (post, _) = derive_post_address(a, &b"rust".to_vec());
    add_comment(&mut f, b, &post, b"nice".to_vec()).unwrap();
    let (caddr, _) = derive_comment_address(b, &b"nice".to_vec(), &post);
    let ev = add_reaction_comment(&mut f, a, &caddr, ReactionType::Like).unwrap();
    assert_eq!(ev.reaction, 0);
    assert_eq!(f.get_comment(&caddr).unwrap().likes, 1);
    let (raddr, _) = derive_comment_reaction_address(a, &caddr);
    let (refund, rev) = remove_reaction_comment(&mut f, a, &raddr).unwrap();
    assert_eq!(refund.to, a);
    assert_eq!(refund.amount, COMMENT_REACTION_SPACE);
    assert_eq!(rev.reaction, 0);
    assert_eq!(f.get_comment(&caddr).unwrap().likes, 0);
    assert!(f.get_comment_reaction(&raddr).is_none());
}

#[test]
fn full_scenario_through_entry_points() {
    let mut f = Forum::new();
    let a = account(10);
    let b = account(20);
    // Author A creates the post.
    post_add(&mut f, a, b"rust".to_vec(), b"hello".to_vec()).unwrap();
    let (post, _) = derive_post_address(a, &b"rust".to_vec());
    {
        let p = f.get_post(&post).unwrap();
        assert_eq!(p.likes, 0);
        assert_eq!(p.dislikes, 0);
        assert_eq!(p.comment_count, 0);
    }
    // User B comments on it.
    comment_add(&mut f, b, &post, b"nice".to_vec()).unwrap();
    assert_eq!(f.get_post(&post).unwrap().comment_count, 1);
    let (caddr, _) = derive_comment_address(b, &b"nice".to_vec(), &post);
    // User B likes the comment.
    like_comment(&mut f, b, &caddr).unwrap();
    assert_eq!(f.get_comment(&caddr).unwrap().likes, 1);
    // A second like by B on the same comment fails.
    let r = like_comment(&mut f, b, &caddr);
    assert_eq!(r.unwrap_err(), DepressError::DuplicateEntity);
    let r = dislike_comment(&mut f, b, &caddr);
    assert_eq!(r.unwrap_err(), DepressError::DuplicateEntity);
    assert_eq!(f.get_comment(&caddr).unwrap().likes, 1);
    // Removing the post is unguarded with live comments: it succeeds and
    // the comment stays behind with a dangling parent reference.
    post_remove(&mut f, a, &post).unwrap();
    assert!(f.get_post(&post).is_none());
    assert!(f.get_comment(&caddr).is_some());
    // The comment can still be reacted to and cleaned up afterwards.
    let (raddr, _) = derive_comment_reaction_address(b, &caddr);
    reaction_remove_comment(&mut f, b, &raddr).unwrap();
    assert_eq!(f.get_comment(&caddr).unwrap().likes, 0);
    comment_remove(&mut f, b, &caddr).unwrap();
    assert!(f.get_comment(&caddr).is_none());
}
