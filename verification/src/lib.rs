//! A minimal decentralized forum: accounts publish posts, attach comments,
//! and react to either with a like or a dislike. Every entity lives at a
//! deterministic, collision-free address derived from its logical identity,
//! so occupancy of that address is the sole guard against duplicate
//! submissions and double votes. Engagement counters move only together
//! with the record that justifies them, and every decrement is guarded
//! against underflow. Each operation either commits whole — and hands back
//! the domain event to publish — or returns an error and changes nothing.

pub mod address;
pub mod constants;
pub mod errors;
pub mod events;
pub mod forum;
pub mod instructions;
pub mod laws;
pub mod states;
pub mod store;

use vstd::prelude::*;
use crate::address::{AccountId, Address};
use crate::errors::DepressError;
use crate::events::{
    CommentCreated, CommentRemoved, PostCreated, PostRemoved, ReactionCommentAdded,
    ReactionCommentRemoved, ReactionPostAdded, ReactionPostRemoved, Refund,
};
use crate::forum::Forum;
use crate::instructions::{
    add_comment, add_comment_ensures, add_post, add_post_ensures, add_reaction_comment,
    add_reaction_comment_ensures, add_reaction_post, add_reaction_post_ensures, remove_comment,
    remove_comment_ensures, remove_post, remove_post_ensures, remove_reaction_comment,
    remove_reaction_comment_ensures, remove_reaction_post, remove_reaction_post_ensures,
};
use crate::states::ReactionType;

verus! {

/// Entry point: creates the post of `post_author` under `post_topic`.
pub fn post_add(
    f: &mut Forum,
    post_author: AccountId,
    post_topic: Vec<u8>,
    post_content: Vec<u8>,
) -> (r: Result<PostCreated, DepressError>)
    requires
        old(f).wf(),
    ensures
        final(f).wf(),
        add_post_ensures(old(f)@, final(f)@, post_author, post_topic@, post_content@, r),
{
    add_post(f, post_author, post_topic, post_content)
}

/// Entry point: closes the post at `post` on behalf of `caller`.
pub fn post_remove(f: &mut Forum, caller: AccountId, post: &Address) -> (r: Result<
    (Refund, PostRemoved),
    DepressError,
>)
    requires
        old(f).wf(),
    ensures
        final(f).wf(),
        remove_post_ensures(old(f)@, final(f)@, caller, post@, r),
{
    remove_post(f, caller, post)
}

/// Entry point: records a like by `reaction_author` on the post at `post`.
pub fn like_post(f: &mut Forum, reaction_author: AccountId, post: &Address) -> (r: Result<
    ReactionPostAdded,
    DepressError,
>)
    requires
        old(f).wf(),
    ensures
        final(f).wf(),
        add_reaction_post_ensures(
            old(f)@,
            final(f)@,
            reaction_author,
            post@,
            ReactionType::Like,
            r,
        ),
{
    add_reaction_post(f, reaction_author, post, ReactionType::Like)
}

/// Entry point: records a dislike by `reaction_author` on the post at
/// `post`.
pub fn dislike_post(f: &mut Forum, reaction_author: AccountId, post: &Address) -> (r: Result<
    ReactionPostAdded,
    DepressError,
>)
    requires
        old(f).wf(),
    ensures
        final(f).wf(),
        add_reaction_post_ensures(
            old(f)@,
            final(f)@,
            reaction_author,
            post@,
            ReactionType::Dislike,
            r,
        ),
{
    add_reaction_post(f, reaction_author, post, ReactionType::Dislike)
}

/// Entry point: removes the post reaction at `post_reaction` on behalf of
/// `caller`.
pub fn reaction_remove_post(f: &mut Forum, caller: AccountId, post_reaction: &Address) -> (r:
    Result<(Refund, ReactionPostRemoved), DepressError>)
    requires
        old(f).wf(),
    ensures
        final(f).wf(),
        remove_reaction_post_ensures(old(f)@, final(f)@, caller, post_reaction@, r),
{
    remove_reaction_post(f, caller, post_reaction)
}

/// Entry point: creates the comment of `comment_author` under the post at
/// `post`.
pub fn comment_add(
    f: &mut Forum,
    comment_author: AccountId,
    post: &Address,
    comment_content: Vec<u8>,
) -> (r: Result<CommentCreated, DepressError>)
    requires
        old(f).wf(),
    ensures
        final(f).wf(),
        add_comment_ensures(old(f)@, final(f)@, comment_author, post@, comment_content@, r),
{
    add_comment(f, comment_author, post, comment_content)
}

/// Entry point: closes the comment at `comment` on behalf of `caller`.
pub fn comment_remove(f: &mut Forum, caller: AccountId, comment: &Address) -> (r: Result<
    (Refund, CommentRemoved),
    DepressError,
>)
    requires
        old(f).wf(),
    ensures
        final(f).wf(),
        remove_comment_ensures(old(f)@, final(f)@, caller, comment@, r),
{
    remove_comment(f, caller, comment)
}

/// Entry point: records a like by `reaction_author` on the comment at
/// `comment`.
pub fn like_comment(f: &mut Forum, reaction_author: AccountId, comment: &Address) -> (r: Result<
    ReactionCommentAdded,
    DepressError,
>)
    requires
        old(f).wf(),
    ensures
        final(f).wf(),
        add_reaction_comment_ensures(
            old(f)@,
            final(f)@,
            reaction_author,
            comment@,
            ReactionType::Like,
            r,
        ),
{
    add_reaction_comment(f, reaction_author, comment, ReactionType::Like)
}

/// Entry point: records a dislike by `reaction_author` on the comment at
/// `comment`.
pub fn dislike_comment(f: &mut Forum, reaction_author: AccountId, comment: &Address) -> (r: Result<
    ReactionCommentAdded,
    DepressError,
>)
    requires
        old(f).wf(),
    ensures
        final(f).wf(),
        add_reaction_comment_ensures(
            old(f)@,
            final(f)@,
            reaction_author,
            comment@,
            ReactionType::Dislike,
            r,
        ),
{
    add_reaction_comment(f, reaction_author, comment, ReactionType::Dislike)
}

/// Entry point: removes the comment reaction at `comment_reaction` on
/// behalf of `caller`.
pub fn reaction_remove_comment(f: &mut Forum, caller: AccountId, comment_reaction: &Address) -> (r:
    Result<(Refund, ReactionCommentRemoved), DepressError>)
    requires
        old(f).wf(),
    ensures
        final(f).wf(),
        remove_reaction_comment_ensures(old(f)@, final(f)@, caller, comment_reaction@, r),
{
    remove_reaction_comment(f, caller, comment_reaction)
}

} // verus!
