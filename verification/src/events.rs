use vstd::prelude::*;
use crate::address::{AccountId, Address};

verus! {

/// The storage cost handed back when an entity is closed. It always goes to
/// the identity stored in the record's author field, never to whoever the
/// caller claims to be.
#[derive(Clone, Copy, Debug, PartialEq, Eq, Structural)]
pub struct Refund {
    pub to: AccountId,
    pub amount: u64,
}

/// Emitted after a post is created. No event accompanies a failed
/// operation: each operation returns its event only once the mutation is
/// applied.
#[derive(Debug)]
pub struct PostCreated {
    pub post_author: AccountId,
    pub topic: Vec<u8>,
}

/// Emitted after a post is removed.
#[derive(Debug)]
pub struct PostRemoved {
    pub post_author: AccountId,
    pub topic: Vec<u8>,
}

/// Emitted after a reaction lands on a post. `reaction` is the kind's
/// discriminant: 0 for a like, 1 for a dislike.
#[derive(Debug)]
pub struct ReactionPostAdded {
    pub author: AccountId,
    pub parent_post: Address,
    pub reaction: u8,
}

/// Emitted after a reaction is removed from a post. `reaction` carries the
/// discriminant of the kind read from the stored record.
#[derive(Debug)]
pub struct ReactionPostRemoved {
    pub author: AccountId,
    pub parent_post: Address,
    pub reaction: u8,
}

/// Emitted after a comment is created.
#[derive(Debug)]
pub struct CommentCreated {
    pub author: AccountId,
    pub parent_post: Address,
    pub content: Vec<u8>,
}

/// Emitted after a comment is removed.
#[derive(Debug)]
pub struct CommentRemoved {
    pub author: AccountId,
    pub parent_post: Address,
    pub content: Vec<u8>,
}

/// Emitted after a reaction lands on a comment.
#[derive(Debug)]
pub struct ReactionCommentAdded {
    pub author: AccountId,
    pub parent_comment: Address,
    pub reaction: u8,
}

/// Emitted after a reaction is removed from a comment.
#[derive(Debug)]
pub struct ReactionCommentRemoved {
    pub author: AccountId,
    pub parent_comment: Address,
    pub reaction: u8,
}

} // verus!
