use vstd::prelude::*;
use crate::address::{AccountId, Address};

verus! {

/// The two reaction kinds. One account holds at most one reaction per
/// parent entity, of exactly one kind.
#[derive(Clone, Copy, Debug, PartialEq, Eq, Structural)]
pub enum ReactionType {
    Like,
    Dislike,
}

/// The discriminant that events carry for a reaction kind: 0 for a like,
/// 1 for a dislike. Off-chain consumers rely on these exact values.
pub open spec fn spec_reaction_discriminant(r: ReactionType) -> u8 {
    match r {
        ReactionType::Like => 0,
        ReactionType::Dislike => 1,
    }
}

/// Computes the event discriminant of a reaction kind.
pub fn reaction_discriminant(r: ReactionType) -> (d: u8)
    ensures
        d == spec_reaction_discriminant(r),
{
    match r {
        ReactionType::Like => 0,
        ReactionType::Dislike => 1,
    }
}

/// A stored post record.
#[derive(Debug)]
pub struct Post {
    pub post_author: AccountId,
    pub topic: Vec<u8>,
    pub content: Vec<u8>,
    pub likes: u64,
    pub dislikes: u64,
    pub comment_count: u32,
    pub bump: u8,
}

/// The mathematical value of a post record.
#[verifier::ext_equal]
pub ghost struct PostV {
    pub post_author: AccountId,
    pub topic: Seq<u8>,
    pub content: Seq<u8>,
    pub likes: u64,
    pub dislikes: u64,
    pub comment_count: u32,
    pub bump: u8,
}

impl View for Post {
    type V = PostV;

    open spec fn view(&self) -> PostV {
        PostV {
            post_author: self.post_author,
            topic: self.topic@,
            content: self.content@,
            likes: self.likes,
            dislikes: self.dislikes,
            comment_count: self.comment_count,
            bump: self.bump,
        }
    }
}

/// A stored comment record. The parent post is referenced by address; the
/// reference may dangle once the post is removed, since removing a post
/// leaves its comments in place.
#[derive(Debug)]
pub struct Comment {
    pub comment_author: AccountId,
    pub parent_post: Address,
    pub content: Vec<u8>,
    pub likes: u64,
    pub dislikes: u64,
    pub bump: u8,
}

/// The mathematical value of a comment record.
#[verifier::ext_equal]
pub ghost struct CommentV {
    pub comment_author: AccountId,
    pub parent_post: Seq<u8>,
    pub content: Seq<u8>,
    pub likes: u64,
    pub dislikes: u64,
    pub bump: u8,
}

impl View for Comment {
    type V = CommentV;

    open spec fn view(&self) -> CommentV {
        CommentV {
            comment_author: self.comment_author,
            parent_post: self.parent_post@,
            content: self.content@,
            likes: self.likes,
            dislikes: self.dislikes,
            bump: self.bump,
        }
    }
}

/// A stored reaction on a post. The kind is read from this record when the
/// reaction is removed, never from caller input.
#[derive(Debug)]
pub struct ReactionPost {
    pub reaction_author: AccountId,
    pub parent_post: Address,
    pub reaction: ReactionType,
    pub bump: u8,
}

/// The mathematical value of a post-reaction record.
#[verifier::ext_equal]
pub ghost struct ReactionPostV {
    pub reaction_author: AccountId,
    pub parent_post: Seq<u8>,
    pub reaction: ReactionType,
    pub bump: u8,
}

impl View for ReactionPost {
    type V = ReactionPostV;

    open spec fn view(&self) -> ReactionPostV {
        ReactionPostV {
            reaction_author: self.reaction_author,
            parent_post: self.parent_post@,
            reaction: self.reaction,
            bump: self.bump,
        }
    }
}

/// A stored reaction on a comment.
#[derive(Debug)]
pub struct ReactionComment {
    pub reaction_author: AccountId,
    pub parent_comment: Address,
    pub reaction: ReactionType,
    pub bump: u8,
}

/// The mathematical value of a comment-reaction record.
#[verifier::ext_equal]
pub ghost struct ReactionCommentV {
    pub reaction_author: AccountId,
    pub parent_comment: Seq<u8>,
    pub reaction: ReactionType,
    pub bump: u8,
}

impl View for ReactionComment {
    type V = ReactionCommentV;

    open spec fn view(&self) -> ReactionCommentV {
        ReactionCommentV {
            reaction_author: self.reaction_author,
            parent_comment: self.parent_comment@,
            reaction: self.reaction,
            bump: self.bump,
        }
    }
}

} // verus!
