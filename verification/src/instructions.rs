use vstd::prelude::*;
use crate::address::{
    copy_address, copy_bytes, derive_comment_address, derive_comment_reaction_address,
    derive_post_address, derive_post_reaction_address, spec_comment_address,
    spec_comment_reaction_address, spec_post_address, spec_post_reaction_address, AccountId,
    Address,
};
use crate::constants::{
    CANONICAL_BUMP, COMMENT_LENGTH, COMMENT_REACTION_SPACE, COMMENT_SPACE, CONTENT_LENGTH,
    POST_REACTION_SPACE, POST_SPACE, TOPIC_LENGTH,
};
use crate::errors::DepressError;
use crate::events::{
    CommentCreated, CommentRemoved, PostCreated, PostRemoved, ReactionCommentAdded,
    ReactionCommentRemoved, ReactionPostAdded, ReactionPostRemoved, Refund,
};
use crate::forum::{Forum, ForumV};
use crate::states::{
    reaction_discriminant, spec_reaction_discriminant, Comment, CommentV, Post, PostV,
    ReactionComment, ReactionCommentV, ReactionPost, ReactionPostV, ReactionType,
};

verus! {

/// The content validator: accepts `field` exactly when its byte length is
/// within `max_bytes`, and otherwise returns `too_long`, the error the
/// caller reserves for this field. It runs before any state is touched.
pub fn validate(field: &Vec<u8>, max_bytes: usize, too_long: DepressError) -> (r: Result<
    (),
    DepressError,
>)
    ensures
        r is Ok <==> field@.len() <= max_bytes,
        r is Err ==> r->Err_0 == too_long,
{
    if field.len() <= max_bytes {
        Ok(())
    } else {
        Err(too_long)
    }
}

/// What creating a post means: validate the topic, refuse an occupied
/// address, validate the content, and otherwise store a fresh record with
/// all counters at zero. The occupancy check precedes the content check so
/// that resubmitting an existing (author, topic) pair always answers
/// `DuplicateEntity`, whatever content comes with it; a too-long topic can
/// never collide with a stored one, so putting the topic check first is
/// unobservable.
pub open spec fn spec_add_post(
    f: ForumV,
    author: AccountId,
    topic: Seq<u8>,
    content: Seq<u8>,
) -> Result<ForumV, DepressError> {
    if topic.len() > TOPIC_LENGTH {
        Err(DepressError::TopicTooLong)
    } else if f.posts.contains_key(spec_post_address(author, topic)) {
        Err(DepressError::DuplicateEntity)
    } else if content.len() > CONTENT_LENGTH {
        Err(DepressError::ContentTooLong)
    } else {
        Ok(
            ForumV {
                posts: f.posts.insert(
                    spec_post_address(author, topic),
                    PostV {
                        post_author: author,
                        topic,
                        content,
                        likes: 0,
                        dislikes: 0,
                        comment_count: 0,
                        bump: CANONICAL_BUMP,
                    },
                ),
                ..f
            },
        )
    }
}

/// Relates one `add_post` call to its outcome: on success the forum moves
/// to the state `spec_add_post` gives and the event names the author and
/// topic; on failure the error is the one `spec_add_post` gives and the
/// forum is untouched.
pub open spec fn add_post_ensures(
    pre: ForumV,
    post: ForumV,
    author: AccountId,
    topic: Seq<u8>,
    content: Seq<u8>,
    r: Result<PostCreated, DepressError>,
) -> bool {
    match (spec_add_post(pre, author, topic, content), r) {
        (Ok(next), Ok(ev)) => post == next && ev.post_author == author && ev.topic@ == topic,
        (Err(e), Err(e2)) => post == pre && e2 == e,
        _ => false,
    }
}

/// Creates the post of `post_author` under `post_topic`. Fails with the
/// matching length error when a text field is over its bound, and with
/// `DuplicateEntity` when the derived address is occupied, that is when the
/// same author already has a post under the same topic.
pub fn add_post(
    f: &mut Forum,
    post_author: AccountId,
    post_topic: Vec<u8>,
    post_content: Vec<u8>,
) -> (r: Result<PostCreated, DepressError>)
    requires
        old(f).wf(),
    ensures
        final(f).wf(),
        add_post_ensures(old(f)@, final(f)@, post_author, post_topic@, post_content@, r),
{
    match validate(&post_topic, TOPIC_LENGTH, DepressError::TopicTooLong) {
        Err(e) => {
            return Err(e);
        },
        Ok(()) => {},
    }
    let (addr, bump) = derive_post_address(post_author, &post_topic);
    if f.posts.contains(&addr) {
        return Err(DepressError::DuplicateEntity);
    }
    match validate(&post_content, CONTENT_LENGTH, DepressError::ContentTooLong) {
        Err(e) => {
            return Err(e);
        },
        Ok(()) => {},
    }
    let topic_for_event = copy_bytes(&post_topic);
    let post = Post {
        post_author,
        topic: post_topic,
        content: post_content,
        likes: 0,
        dislikes: 0,
        comment_count: 0,
        bump,
    };
    f.posts.insert_new(addr, post);
    proof {
        assert forall|k: Seq<u8>| #[trigger] f@.posts.contains_key(k) implies {
            let p = f@.posts[k];
            &&& k == spec_post_address(p.post_author, p.topic)
            &&& p.topic.len() <= TOPIC_LENGTH
            &&& p.content.len() <= CONTENT_LENGTH
            &&& p.bump == CANONICAL_BUMP
        } by {
            if k != spec_post_address(post_author, post_topic@) {
                assert(old(f)@.posts.contains_key(k));
            }
        }
    }
    Ok(PostCreated { post_author, topic: topic_for_event })
}

/// What removing a post means: the address must be occupied and the caller
/// must be the stored author; the record then leaves the store. Comments
/// and reactions under the post stay where they are, and the freed address
/// may deliberately be occupied again by a fresh post of the same identity.
pub open spec fn spec_remove_post(f: ForumV, caller: AccountId, post: Seq<u8>) -> Result<
    ForumV,
    DepressError,
> {
    if !f.posts.contains_key(post) {
        Err(DepressError::NotFound)
    } else if f.posts[post].post_author != caller {
        Err(DepressError::InvalidOwner)
    } else {
        Ok(ForumV { posts: f.posts.remove(post), ..f })
    }
}

/// Relates one `remove_post` call to its outcome: on success the refund
/// carries the post's storage cost to the stored author and the event
/// names that author and the stored topic.
pub open spec fn remove_post_ensures(
    pre: ForumV,
    post: ForumV,
    caller: AccountId,
    addr: Seq<u8>,
    r: Result<(Refund, PostRemoved), DepressError>,
) -> bool {
    match (spec_remove_post(pre, caller, addr), r) {
        (Ok(next), Ok((refund, ev))) => {
            &&& post == next
            &&& refund.to == pre.posts[addr].post_author
            &&& refund.amount == POST_SPACE
            &&& ev.post_author == pre.posts[addr].post_author
            &&& ev.topic@ == pre.posts[addr].topic
        },
        (Err(e), Err(e2)) => post == pre && e2 == e,
        _ => false,
    }
}

/// Closes the post at `post` and refunds its storage cost to its stored
/// author. Only that author may close it.
pub fn remove_post(f: &mut Forum, caller: AccountId, post: &Address) -> (r: Result<
    (Refund, PostRemoved),
    DepressError,
>)
    requires
        old(f).wf(),
    ensures
        final(f).wf(),
        remove_post_ensures(old(f)@, final(f)@, caller, post@, r),
{
    let owner_ok = match f.posts.get(post) {
        None => {
            return Err(DepressError::NotFound);
        },
        Some(p) => p.post_author == caller,
    };
    if !owner_ok {
        return Err(DepressError::InvalidOwner);
    }
    let p = f.posts.remove_entry(post).unwrap();
    proof {
        assert forall|k: Seq<u8>| #[trigger] f@.posts.contains_key(k) implies {
            let q = f@.posts[k];
            &&& k == spec_post_address(q.post_author, q.topic)
            &&& q.topic.len() <= TOPIC_LENGTH
            &&& q.content.len() <= CONTENT_LENGTH
            &&& q.bump == CANONICAL_BUMP
        } by {
            assert(old(f)@.posts.contains_key(k));
        }
    }
    let refund = Refund { to: p.post_author, amount: POST_SPACE };
    let ev = PostRemoved { post_author: p.post_author, topic: p.topic };
    Ok((refund, ev))
}

/// What reacting to a post means: the post must exist, the derived
/// reaction address must be free (one reaction per account per post), the
/// matching counter must have room; the reaction record is then stored and
/// the counter moves up by one.
pub open spec fn spec_add_reaction_post(
    f: ForumV,
    author: AccountId,
    post: Seq<u8>,
    reaction: ReactionType,
) -> Result<ForumV, DepressError> {
    if !f.posts.contains_key(post) {
        Err(DepressError::NotFound)
    } else if f.post_reactions.contains_key(spec_post_reaction_address(author, post)) {
        Err(DepressError::DuplicateEntity)
    } else {
        let p = f.posts[post];
        let rec = ReactionPostV {
            reaction_author: author,
            parent_post: post,
            reaction,
            bump: CANONICAL_BUMP,
        };
        match reaction {
            ReactionType::Like => {
                if p.likes == u64::MAX {
                    Err(DepressError::MaxLikesReached)
                } else {
                    Ok(
                        ForumV {
                            posts: f.posts.insert(post, PostV { likes: (p.likes + 1) as u64, ..p }),
                            post_reactions: f.post_reactions.insert(
                                spec_post_reaction_address(author, post),
                                rec,
                            ),
                            ..f
                        },
                    )
                }
            },
            ReactionType::Dislike => {
                if p.dislikes == u64::MAX {
                    Err(DepressError::MaxDislikesReached)
                } else {
                    Ok(
                        ForumV {
                            posts: f.posts.insert(
                                post,
                                PostV { dislikes: (p.dislikes + 1) as u64, ..p },
                            ),
                            post_reactions: f.post_reactions.insert(
                                spec_post_reaction_address(author, post),
                                rec,
                            ),
                            ..f
                        },
                    )
                }
            },
        }
    }
}

/// Relates one `add_reaction_post` call to its outcome; the event carries
/// the reaction kind as its 0 or 1 discriminant.
pub open spec fn add_reaction_post_ensures(
    pre: ForumV,
    post: ForumV,
    author: AccountId,
    addr: Seq<u8>,
    reaction: ReactionType,
    r: Result<ReactionPostAdded, DepressError>,
) -> bool {
    match (spec_add_reaction_post(pre, author, addr, reaction), r) {
        (Ok(next), Ok(ev)) => {
            &&& post == next
            &&& ev.author == author
            &&& ev.parent_post@ == addr
            &&& ev.reaction == spec_reaction_discriminant(reaction)
        },
        (Err(e), Err(e2)) => post == pre && e2 == e,
        _ => false,
    }
}

/// Records the reaction of `reaction_author` on the post at `post` and
/// moves the matching counter up by one. The derived reaction address is
/// the sole duplicate-vote guard: a second reaction by the same account on
/// the same post fails with `DuplicateEntity`.
pub fn add_reaction_post(
    f: &mut Forum,
    reaction_author: AccountId,
    post: &Address,
    reaction: ReactionType,
) -> (r: Result<ReactionPostAdded, DepressError>)
    requires
        old(f).wf(),
    ensures
        final(f).wf(),
        add_reaction_post_ensures(old(f)@, final(f)@, reaction_author, post@, reaction, r),
{
    let (likes0, dislikes0) = match f.posts.get(post) {
        None => {
            return Err(DepressError::NotFound);
        },
        Some(p0) => (p0.likes, p0.dislikes),
    };
    let (raddr, bump) = derive_post_reaction_address(reaction_author, post);
    if f.post_reactions.contains(&raddr) {
        return Err(DepressError::DuplicateEntity);
    }
    match reaction {
        ReactionType::Like => {
            if likes0 == u64::MAX {
                return Err(DepressError::MaxLikesReached);
            }
        },
        ReactionType::Dislike => {
            if dislikes0 == u64::MAX {
                return Err(DepressError::MaxDislikesReached);
            }
        },
    }
    let mut p = f.posts.remove_entry(post).unwrap();
    match reaction {
        ReactionType::Like => {
            p.likes = p.likes + 1;
        },
        ReactionType::Dislike => {
            p.dislikes = p.dislikes + 1;
        },
    }
    let rec = ReactionPost {
        reaction_author,
        parent_post: copy_address(post),
        reaction,
        bump,
    };
    f.post_reactions.insert_new(raddr, rec);
    let key = copy_address(post);
    f.posts.insert_new(key, p);
    proof {
        assert(f@.posts =~= old(f)@.posts.insert(post@, p@));
        assert forall|k: Seq<u8>| #[trigger] f@.posts.contains_key(k) implies {
            let q = f@.posts[k];
            &&& k == spec_post_address(q.post_author, q.topic)
            &&& q.topic.len() <= TOPIC_LENGTH
            &&& q.content.len() <= CONTENT_LENGTH
            &&& q.bump == CANONICAL_BUMP
        } by {
            assert(old(f)@.posts.contains_key(k));
        }
        assert forall|k: Seq<u8>| #[trigger] f@.post_reactions.contains_key(k) implies {
            let q = f@.post_reactions[k];
            &&& k == spec_post_reaction_address(q.reaction_author, q.parent_post)
            &&& q.bump == CANONICAL_BUMP
        } by {
            if k != spec_post_reaction_address(reaction_author, post@) {
                assert(old(f)@.post_reactions.contains_key(k));
            }
        }
        assert(final(f)@ =~= spec_add_reaction_post(
            old(f)@,
            reaction_author,
            post@,
            reaction,
        )->Ok_0);
    }
    Ok(
        ReactionPostAdded {
            author: reaction_author,
            parent_post: copy_address(post),
            reaction: reaction_discriminant(reaction),
        },
    )
}

/// What removing a post reaction means: the reaction must exist and belong
/// to the caller, its parent post must still exist, and the counter of the
/// stored kind must be positive — the underflow guard. The kind is read
/// from the stored record, never from caller input.
pub open spec fn spec_remove_reaction_post(
    f: ForumV,
    caller: AccountId,
    reaction_addr: Seq<u8>,
) -> Result<ForumV, DepressError> {
    if !f.post_reactions.contains_key(reaction_addr) {
        Err(DepressError::NotFound)
    } else {
        let rec = f.post_reactions[reaction_addr];
        if rec.reaction_author != caller {
            Err(DepressError::InvalidOwner)
        } else if !f.posts.contains_key(rec.parent_post) {
            Err(DepressError::NotFound)
        } else {
            let p = f.posts[rec.parent_post];
            match rec.reaction {
                ReactionType::Like => {
                    if p.likes == 0 {
                        Err(DepressError::InvalidReactionState)
                    } else {
                        Ok(
                            ForumV {
                                posts: f.posts.insert(
                                    rec.parent_post,
                                    PostV { likes: (p.likes - 1) as u64, ..p },
                                ),
                                post_reactions: f.post_reactions.remove(reaction_addr),
                                ..f
                            },
                        )
                    }
                },
                ReactionType::Dislike => {
                    if p.dislikes == 0 {
                        Err(DepressError::InvalidReactionState)
                    } else {
                        Ok(
                            ForumV {
                                posts: f.posts.insert(
                                    rec.parent_post,
                                    PostV { dislikes: (p.dislikes - 1) as u64, ..p },
                                ),
                                post_reactions: f.post_reactions.remove(reaction_addr),
                                ..f
                            },
                        )
                    }
                },
            }
        }
    }
}

/// Relates one `remove_reaction_post` call to its outcome: on success the
/// refund carries the reaction's storage cost to the stored reactor and the
/// event names that reactor, the parent post, and the stored kind's
/// discriminant.
pub open spec fn remove_reaction_post_ensures(
    pre: ForumV,
    post: ForumV,
    caller: AccountId,
    reaction_addr: Seq<u8>,
    r: Result<(Refund, ReactionPostRemoved), DepressError>,
) -> bool {
    match (spec_remove_reaction_post(pre, caller, reaction_addr), r) {
        (Ok(next), Ok((refund, ev))) => {
            &&& post == next
            &&& refund.to == pre.post_reactions[reaction_addr].reaction_author
            &&& refund.amount == POST_REACTION_SPACE
            &&& ev.author == pre.post_reactions[reaction_addr].reaction_author
            &&& ev.parent_post@ == pre.post_reactions[reaction_addr].parent_post
            &&& ev.reaction == spec_reaction_discriminant(
                pre.post_reactions[reaction_addr].reaction,
            )
        },
        (Err(e), Err(e2)) => post == pre && e2 == e,
        _ => false,
    }
}

/// Closes the reaction at `post_reaction`, refunds its storage cost to the
/// stored reactor, and moves the matching counter of the parent post down
/// by one. A counter already at zero fails with `InvalidReactionState` and
/// changes nothing.
pub fn remove_reaction_post(f: &mut Forum, caller: AccountId, post_reaction: &Address) -> (r:
    Result<(Refund, ReactionPostRemoved), DepressError>)
    requires
        old(f).wf(),
    ensures
        final(f).wf(),
        remove_reaction_post_ensures(old(f)@, final(f)@, caller, post_reaction@, r),
{
    let (rauthor, rkind, parent) = match f.post_reactions.get(post_reaction) {
        None => {
            return Err(DepressError::NotFound);
        },
        Some(rec) => (rec.reaction_author, rec.reaction, copy_address(&rec.parent_post)),
    };
    if rauthor != caller {
        return Err(DepressError::InvalidOwner);
    }
    let (likes0, dislikes0) = match f.posts.get(&parent) {
        None => {
            return Err(DepressError::NotFound);
        },
        Some(p0) => (p0.likes, p0.dislikes),
    };
    match rkind {
        ReactionType::Like => {
            if likes0 == 0 {
                return Err(DepressError::InvalidReactionState);
            }
        },
        ReactionType::Dislike => {
            if dislikes0 == 0 {
                return Err(DepressError::InvalidReactionState);
            }
        },
    }
    let rec = f.post_reactions.remove_entry(post_reaction).unwrap();
    let mut p = f.posts.remove_entry(&parent).unwrap();
    match rkind {
        ReactionType::Like => {
            p.likes = p.likes - 1;
        },
        ReactionType::Dislike => {
            p.dislikes = p.dislikes - 1;
        },
    }
    let key = copy_address(&parent);
    f.posts.insert_new(key, p);
    proof {
        assert(f@.posts =~= old(f)@.posts.insert(parent@, p@));
        assert forall|k: Seq<u8>| #[trigger] f@.posts.contains_key(k) implies {
            let q = f@.posts[k];
            &&& k == spec_post_address(q.post_author, q.topic)
            &&& q.topic.len() <= TOPIC_LENGTH
            &&& q.content.len() <= CONTENT_LENGTH
            &&& q.bump == CANONICAL_BUMP
        } by {
            assert(old(f)@.posts.contains_key(k));
        }
        assert forall|k: Seq<u8>| #[trigger] f@.post_reactions.contains_key(k) implies {
            let q = f@.post_reactions[k];
            &&& k == spec_post_reaction_address(q.reaction_author, q.parent_post)
            &&& q.bump == CANONICAL_BUMP
        } by {
            assert(old(f)@.post_reactions.contains_key(k));
        }
        assert(final(f)@ =~= spec_remove_reaction_post(old(f)@, caller, post_reaction@)->Ok_0);
    }
    let refund = Refund { to: rec.reaction_author, amount: POST_REACTION_SPACE };
    let ev = ReactionPostRemoved {
        author: rec.reaction_author,
        parent_post: rec.parent_post,
        reaction: reaction_discriminant(rkind),
    };
    Ok((refund, ev))
}

/// What creating a comment means: validate the content, find the parent
/// post, refuse an occupied address (the same author already submitted the
/// same content under this post), make sure the post's comment count has
/// room; the comment is then stored with its counters at zero and the
/// post's comment count moves up by one, both in the same atomic step.
pub open spec fn spec_add_comment(
    f: ForumV,
    author: AccountId,
    post: Seq<u8>,
    content: Seq<u8>,
) -> Result<ForumV, DepressError> {
    if content.len() > COMMENT_LENGTH {
        Err(DepressError::CommentTooLong)
    } else if !f.posts.contains_key(post) {
        Err(DepressError::NotFound)
    } else if f.comments.contains_key(spec_comment_address(author, content, post)) {
        Err(DepressError::DuplicateEntity)
    } else if f.posts[post].comment_count == u32::MAX {
        Err(DepressError::TooManyComments)
    } else {
        let p = f.posts[post];
        Ok(
            ForumV {
                posts: f.posts.insert(
                    post,
                    PostV { comment_count: (p.comment_count + 1) as u32, ..p },
                ),
                comments: f.comments.insert(
                    spec_comment_address(author, content, post),
                    CommentV {
                        comment_author: author,
                        parent_post: post,
                        content,
                        likes: 0,
                        dislikes: 0,
                        bump: CANONICAL_BUMP,
                    },
                ),
                ..f
            },
        )
    }
}

/// Relates one `add_comment` call to its outcome: on success the event
/// names the author, the parent post, and the content.
pub open spec fn add_comment_ensures(
    pre: ForumV,
    post: ForumV,
    author: AccountId,
    addr: Seq<u8>,
    content: Seq<u8>,
    r: Result<CommentCreated, DepressError>,
) -> bool {
    match (spec_add_comment(pre, author, addr, content), r) {
        (Ok(next), Ok(ev)) => post == next && ev.author == author && ev.parent_post@ == addr
            && ev.content@ == content,
        (Err(e), Err(e2)) => post == pre && e2 == e,
        _ => false,
    }
}

/// Creates the comment of `comment_author` with `comment_content` under the
/// post at `post`, and moves the post's comment count up by one in the same
/// atomic operation. Identical resubmission of the same content by the same
/// author under the same post fails with `DuplicateEntity`; different
/// content from the same author is a different address and goes through.
pub fn add_comment(
    f: &mut Forum,
    comment_author: AccountId,
    post: &Address,
    comment_content: Vec<u8>,
) -> (r: Result<CommentCreated, DepressError>)
    requires
        old(f).wf(),
    ensures
        final(f).wf(),
        add_comment_ensures(old(f)@, final(f)@, comment_author, post@, comment_content@, r),
{
    match validate(&comment_content, COMMENT_LENGTH, DepressError::CommentTooLong) {
        Err(e) => {
            return Err(e);
        },
        Ok(()) => {},
    }
    let count0 = match f.posts.get(post) {
        None => {
            return Err(DepressError::NotFound);
        },
        Some(p0) => p0.comment_count,
    };
    let (caddr, bump) = derive_comment_address(comment_author, &comment_content, post);
    if f.comments.contains(&caddr) {
        return Err(DepressError::DuplicateEntity);
    }
    if count0 == u32::MAX {
        return Err(DepressError::TooManyComments);
    }
    let mut p = f.posts.remove_entry(post).unwrap();
    p.comment_count = p.comment_count + 1;
    let content_for_event = copy_bytes(&comment_content);
    let rec = Comment {
        comment_author,
        parent_post: copy_address(post),
        content: comment_content,
        likes: 0,
        dislikes: 0,
        bump,
    };
    f.comments.insert_new(caddr, rec);
    let key = copy_address(post);
    f.posts.insert_new(key, p);
    proof {
        assert(f@.posts =~= old(f)@.posts.insert(post@, p@));
        assert forall|k: Seq<u8>| #[trigger] f@.posts.contains_key(k) implies {
            let q = f@.posts[k];
            &&& k == spec_post_address(q.post_author, q.topic)
            &&& q.topic.len() <= TOPIC_LENGTH
            &&& q.content.len() <= CONTENT_LENGTH
            &&& q.bump == CANONICAL_BUMP
        } by {
            assert(old(f)@.posts.contains_key(k));
        }
        assert forall|k: Seq<u8>| #[trigger] f@.comments.contains_key(k) implies {
            let q = f@.comments[k];
            &&& k == spec_comment_address(q.comment_author, q.content, q.parent_post)
            &&& q.content.len() <= COMMENT_LENGTH
            &&& q.bump == CANONICAL_BUMP
        } by {
            if k != spec_comment_address(comment_author, comment_content@, post@) {
                assert(old(f)@.comments.contains_key(k));
            }
        }
        assert(final(f)@ =~= spec_add_comment(
            old(f)@,
            comment_author,
            post@,
            comment_content@,
        )->Ok_0);
    }
    Ok(
        CommentCreated {
            author: comment_author,
            parent_post: copy_address(post),
            content: content_for_event,
        },
    )
}

/// What removing a comment means: the address must be occupied and the
/// caller must be the stored author; the record then leaves the store. The
/// parent post's comment count is deliberately not moved back down: the
/// count records how many comments were ever made, a known drift from the
/// number of live comments.
pub open spec fn spec_remove_comment(f: ForumV, caller: AccountId, comment: Seq<u8>) -> Result<
    ForumV,
    DepressError,
> {
    if !f.comments.contains_key(comment) {
        Err(DepressError::NotFound)
    } else if f.comments[comment].comment_author != caller {
        Err(DepressError::InvalidOwner)
    } else {
        Ok(ForumV { comments: f.comments.remove(comment), ..f })
    }
}

/// Relates one `remove_comment` call to its outcome: on success the refund
/// carries the comment's storage cost to the stored author and the event
/// names that author, the parent post, and the stored content.
pub open spec fn remove_comment_ensures(
    pre: ForumV,
    post: ForumV,
    caller: AccountId,
    addr: Seq<u8>,
    r: Result<(Refund, CommentRemoved), DepressError>,
) -> bool {
    match (spec_remove_comment(pre, caller, addr), r) {
        (Ok(next), Ok((refund, ev))) => {
            &&& post == next
            &&& refund.to == pre.comments[addr].comment_author
            &&& refund.amount == COMMENT_SPACE
            &&& ev.author == pre.comments[addr].comment_author
            &&& ev.parent_post@ == pre.comments[addr].parent_post
            &&& ev.content@ == pre.comments[addr].content
        },
        (Err(e), Err(e2)) => post == pre && e2 == e,
        _ => false,
    }
}

/// Closes the comment at `comment` and refunds its storage cost to its
/// stored author. Only that author may close it. The parent post's comment
/// count stays where it is.
pub fn remove_comment(f: &mut Forum, caller: AccountId, comment: &Address) -> (r: Result<
    (Refund, CommentRemoved),
    DepressError,
>)
    requires
        old(f).wf(),
    ensures
        final(f).wf(),
        remove_comment_ensures(old(f)@, final(f)@, caller, comment@, r),
{
    let owner_ok = match f.comments.get(comment) {
        None => {
            return Err(DepressError::NotFound);
        },
        Some(c) => c.comment_author == caller,
    };
    if !owner_ok {
        return Err(DepressError::InvalidOwner);
    }
    let c = f.comments.remove_entry(comment).unwrap();
    proof {
        assert forall|k: Seq<u8>| #[trigger] f@.comments.contains_key(k) implies {
            let q = f@.comments[k];
            &&& k == spec_comment_address(q.comment_author, q.content, q.parent_post)
            &&& q.content.len() <= COMMENT_LENGTH
            &&& q.bump == CANONICAL_BUMP
        } by {
            assert(old(f)@.comments.contains_key(k));
        }
    }
    let refund = Refund { to: c.comment_author, amount: COMMENT_SPACE };
    let ev = CommentRemoved {
        author: c.comment_author,
        parent_post: c.parent_post,
        content: c.content,
    };
    Ok((refund, ev))
}

/// What reacting to a comment means: the comment must exist, the derived
/// reaction address must be free (one reaction per account per comment),
/// and the matching counter must have room; the reaction record is then
/// stored and the counter moves up by one.
pub open spec fn spec_add_reaction_comment(
    f: ForumV,
    author: AccountId,
    comment: Seq<u8>,
    reaction: ReactionType,
) -> Result<ForumV, DepressError> {
    if !f.comments.contains_key(comment) {
        Err(DepressError::NotFound)
    } else if f.comment_reactions.contains_key(spec_comment_reaction_address(author, comment)) {
        Err(DepressError::DuplicateEntity)
    } else {
        let c = f.comments[comment];
        let rec = ReactionCommentV {
            reaction_author: author,
            parent_comment: comment,
            reaction,
            bump: CANONICAL_BUMP,
        };
        match reaction {
            ReactionType::Like => {
                if c.likes == u64::MAX {
                    Err(DepressError::MaxLikesReached)
                } else {
                    Ok(
                        ForumV {
                            comments: f.comments.insert(
                                comment,
                                CommentV { likes: (c.likes + 1) as u64, ..c },
                            ),
                            comment_reactions: f.comment_reactions.insert(
                                spec_comment_reaction_address(author, comment),
                                rec,
                            ),
                            ..f
                        },
                    )
                }
            },
            ReactionType::Dislike => {
                if c.dislikes == u64::MAX {
                    Err(DepressError::MaxDislikesReached)
                } else {
                    Ok(
                        ForumV {
                            comments: f.comments.insert(
                                comment,
                                CommentV { dislikes: (c.dislikes + 1) as u64, ..c },
                            ),
                            comment_reactions: f.comment_reactions.insert(
                                spec_comment_reaction_address(author, comment),
                                rec,
                            ),
                            ..f
                        },
                    )
                }
            },
        }
    }
}

/// Relates one `add_reaction_comment` call to its outcome; the event
/// carries the reaction kind as its 0 or 1 discriminant.
pub open spec fn add_reaction_comment_ensures(
    pre: ForumV,
    post: ForumV,
    author: AccountId,
    addr: Seq<u8>,
    reaction: ReactionType,
    r: Result<ReactionCommentAdded, DepressError>,
) -> bool {
    match (spec_add_reaction_comment(pre, author, addr, reaction), r) {
        (Ok(next), Ok(ev)) => {
            &&& post == next
            &&& ev.author == author
            &&& ev.parent_comment@ == addr
            &&& ev.reaction == spec_reaction_discriminant(reaction)
        },
        (Err(e), Err(e2)) => post == pre && e2 == e,
        _ => false,
    }
}

/// Records the reaction of `reaction_author` on the comment at `comment`
/// and moves the matching counter up by one. A second reaction by the same
/// account on the same comment fails with `DuplicateEntity`.
pub fn add_reaction_comment(
    f: &mut Forum,
    reaction_author: AccountId,
    comment: &Address,
    reaction: ReactionType,
) -> (r: Result<ReactionCommentAdded, DepressError>)
    requires
        old(f).wf(),
    ensures
        final(f).wf(),
        add_reaction_comment_ensures(old(f)@, final(f)@, reaction_author, comment@, reaction, r),
{
    let (likes0, dislikes0) = match f.comments.get(comment) {
        None => {
            return Err(DepressError::NotFound);
        },
        Some(c0) => (c0.likes, c0.dislikes),
    };
    let (raddr, bump) = derive_comment_reaction_address(reaction_author, comment);
    if f.comment_reactions.contains(&raddr) {
        return Err(DepressError::DuplicateEntity);
    }
    match reaction {
        ReactionType::Like => {
            if likes0 == u64::MAX {
                return Err(DepressError::MaxLikesReached);
            }
        },
        ReactionType::Dislike => {
            if dislikes0 == u64::MAX {
                return Err(DepressError::MaxDislikesReached);
            }
        },
    }
    let mut c = f.comments.remove_entry(comment).unwrap();
    match reaction {
        ReactionType::Like => {
            c.likes = c.likes + 1;
        },
        ReactionType::Dislike => {
            c.dislikes = c.dislikes + 1;
        },
    }
    let rec = ReactionComment {
        reaction_author,
        parent_comment: copy_address(comment),
        reaction,
        bump,
    };
    f.comment_reactions.insert_new(raddr, rec);
    let key = copy_address(comment);
    f.comments.insert_new(key, c);
    proof {
        assert(f@.comments =~= old(f)@.comments.insert(comment@, c@));
        assert forall|k: Seq<u8>| #[trigger] f@.comments.contains_key(k) implies {
            let q = f@.comments[k];
            &&& k == spec_comment_address(q.comment_author, q.content, q.parent_post)
            &&& q.content.len() <= COMMENT_LENGTH
            &&& q.bump == CANONICAL_BUMP
        } by {
            assert(old(f)@.comments.contains_key(k));
        }
        assert forall|k: Seq<u8>| #[trigger] f@.comment_reactions.contains_key(k) implies {
            let q = f@.comment_reactions[k];
            &&& k == spec_comment_reaction_address(q.reaction_author, q.parent_comment)
            &&& q.bump == CANONICAL_BUMP
        } by {
            if k != spec_comment_reaction_address(reaction_author, comment@) {
                assert(old(f)@.comment_reactions.contains_key(k));
            }
        }
        assert(final(f)@ =~= spec_add_reaction_comment(
            old(f)@,
            reaction_author,
            comment@,
            reaction,
        )->Ok_0);
    }
    Ok(
        ReactionCommentAdded {
            author: reaction_author,
            parent_comment: copy_address(comment),
            reaction: reaction_discriminant(reaction),
        },
    )
}

/// What removing a comment reaction means: the reaction must exist and
/// belong to the caller, its parent comment must still exist, and the
/// counter of the stored kind must be positive — the underflow guard.
pub open spec fn spec_remove_reaction_comment(
    f: ForumV,
    caller: AccountId,
    reaction_addr: Seq<u8>,
) -> Result<ForumV, DepressError> {
    if !f.comment_reactions.contains_key(reaction_addr) {
        Err(DepressError::NotFound)
    } else {
        let rec = f.comment_reactions[reaction_addr];
        if rec.reaction_author != caller {
            Err(DepressError::InvalidOwner)
        } else if !f.comments.contains_key(rec.parent_comment) {
            Err(DepressError::NotFound)
        } else {
            let c = f.comments[rec.parent_comment];
            match rec.reaction {
                ReactionType::Like => {
                    if c.likes == 0 {
                        Err(DepressError::InvalidReactionState)
                    } else {
                        Ok(
                            ForumV {
                                comments: f.comments.insert(
                                    rec.parent_comment,
                                    CommentV { likes: (c.likes - 1) as u64, ..c },
                                ),
                                comment_reactions: f.comment_reactions.remove(reaction_addr),
                                ..f
                            },
                        )
                    }
                },
                ReactionType::Dislike => {
                    if c.dislikes == 0 {
                        Err(DepressError::InvalidReactionState)
                    } else {
                        Ok(
                            ForumV {
                                comments: f.comments.insert(
                                    rec.parent_comment,
                                    CommentV { dislikes: (c.dislikes - 1) as u64, ..c },
                                ),
                                comment_reactions: f.comment_reactions.remove(reaction_addr),
                                ..f
                            },
                        )
                    }
                },
            }
        }
    }
}

/// Relates one `remove_reaction_comment` call to its outcome: on success
/// the refund carries the reaction's storage cost to the stored reactor and
/// the event names that reactor, the parent comment, and the stored kind's
/// discriminant.
pub open spec fn remove_reaction_comment_ensures(
    pre: ForumV,
    post: ForumV,
    caller: AccountId,
    reaction_addr: Seq<u8>,
    r: Result<(Refund, ReactionCommentRemoved), DepressError>,
) -> bool {
    match (spec_remove_reaction_comment(pre, caller, reaction_addr), r) {
        (Ok(next), Ok((refund, ev))) => {
            &&& post == next
            &&& refund.to == pre.comment_reactions[reaction_addr].reaction_author
            &&& refund.amount == COMMENT_REACTION_SPACE
            &&& ev.author == pre.comment_reactions[reaction_addr].reaction_author
            &&& ev.parent_comment@ == pre.comment_reactions[reaction_addr].parent_comment
            &&& ev.reaction == spec_reaction_discriminant(
                pre.comment_reactions[reaction_addr].reaction,
            )
        },
        (Err(e), Err(e2)) => post == pre && e2 == e,
        _ => false,
    }
}

/// Closes the reaction at `comment_reaction`, refunds its storage cost to
/// the stored reactor, and moves the matching counter of the parent comment
/// down by one. A counter already at zero fails with `InvalidReactionState`
/// and changes nothing.
pub fn remove_reaction_comment(f: &mut Forum, caller: AccountId, comment_reaction: &Address) -> (r:
    Result<(Refund, ReactionCommentRemoved), DepressError>)
    requires
        old(f).wf(),
    ensures
        final(f).wf(),
        remove_reaction_comment_ensures(old(f)@, final(f)@, caller, comment_reaction@, r),
{
    let (rauthor, rkind, parent) = match f.comment_reactions.get(comment_reaction) {
        None => {
            return Err(DepressError::NotFound);
        },
        Some(rec) => (rec.reaction_author, rec.reaction, copy_address(&rec.parent_comment)),
    };
    if rauthor != caller {
        return Err(DepressError::InvalidOwner);
    }
    let (likes0, dislikes0) = match f.comments.get(&parent) {
        None => {
            return Err(DepressError::NotFound);
        },
        Some(c0) => (c0.likes, c0.dislikes),
    };
    match rkind {
        ReactionType::Like => {
            if likes0 == 0 {
                return Err(DepressError::InvalidReactionState);
            }
        },
        ReactionType::Dislike => {
            if dislikes0 == 0 {
                return Err(DepressError::InvalidReactionState);
            }
        },
    }
    let rec = f.comment_reactions.remove_entry(comment_reaction).unwrap();
    let mut c = f.comments.remove_entry(&parent).unwrap();
    match rkind {
        ReactionType::Like => {
            c.likes = c.likes - 1;
        },
        ReactionType::Dislike => {
            c.dislikes = c.dislikes - 1;
        },
    }
    let key = copy_address(&parent);
    f.comments.insert_new(key, c);
    proof {
        assert(f@.comments =~= old(f)@.comments.insert(parent@, c@));
        assert forall|k: Seq<u8>| #[trigger] f@.comments.contains_key(k) implies {
            let q = f@.comments[k];
            &&& k == spec_comment_address(q.comment_author, q.content, q.parent_post)
            &&& q.content.len() <= COMMENT_LENGTH
            &&& q.bump == CANONICAL_BUMP
        } by {
            assert(old(f)@.comments.contains_key(k));
        }
        assert forall|k: Seq<u8>| #[trigger] f@.comment_reactions.contains_key(k) implies {
            let q = f@.comment_reactions[k];
            &&& k == spec_comment_reaction_address(q.reaction_author, q.parent_comment)
            &&& q.bump == CANONICAL_BUMP
        } by {
            assert(old(f)@.comment_reactions.contains_key(k));
        }
        assert(final(f)@ =~= spec_remove_reaction_comment(
            old(f)@,
            caller,
            comment_reaction@,
        )->Ok_0);
    }
    let refund = Refund { to: rec.reaction_author, amount: COMMENT_REACTION_SPACE };
    let ev = ReactionCommentRemoved {
        author: rec.reaction_author,
        parent_comment: rec.parent_comment,
        reaction: reaction_discriminant(rkind),
    };
    Ok((refund, ev))
}

} // verus!
