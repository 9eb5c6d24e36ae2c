use vstd::prelude::*;
use crate::address::{
    lemma_post_address_injective, spec_post_address, spec_post_reaction_address, AccountId,
};
use crate::constants::{CONTENT_LENGTH, TOPIC_LENGTH};
use crate::errors::DepressError;
use crate::forum::{wf_forum, ForumV};
use crate::instructions::{
    spec_add_comment, spec_add_post, spec_add_reaction_post, spec_remove_reaction_post,
};
use crate::states::ReactionType;

verus! {

/// Creation is unique per (author, topic): in a well-formed forum where no
/// post of `author` under `topic` is active and both fields are within
/// their bounds, creating the post succeeds; and after it succeeds, a
/// second creation by the same author under the same topic fails with
/// `DuplicateEntity`, whatever content the second call carries. The
/// operations' own contracts add that the failing call leaves the forum
/// unchanged.
pub proof fn lemma_create_post_once(
    f: ForumV,
    author: AccountId,
    topic: Seq<u8>,
    content1: Seq<u8>,
    content2: Seq<u8>,
)
    requires
        wf_forum(f),
        topic.len() <= TOPIC_LENGTH,
        content1.len() <= CONTENT_LENGTH,
        !(exists|k: Seq<u8>|
            #[trigger] f.posts.contains_key(k) && f.posts[k].post_author == author
                && f.posts[k].topic == topic),
    ensures
        spec_add_post(f, author, topic, content1) is Ok,
        spec_add_post(
            spec_add_post(f, author, topic, content1)->Ok_0,
            author,
            topic,
            content2,
        ) == Err::<ForumV, DepressError>(DepressError::DuplicateEntity),
{
    let k = spec_post_address(author, topic);
    if f.posts.contains_key(k) {
        let p = f.posts[k];
        lemma_post_address_injective(author, topic, p.post_author, p.topic);
    }
    let f1 = spec_add_post(f, author, topic, content1)->Ok_0;
    assert(f1.posts.contains_key(k));
}

/// Over-long text is rejected before anything else can happen: a too-long
/// topic always answers `TopicTooLong`; too-long post content answers
/// `ContentTooLong` whenever the (author, topic) pair is fresh; too-long
/// comment content always answers `CommentTooLong`. The operations' own
/// contracts add that every failing call leaves the forum unchanged, so no
/// storage is allocated.
pub proof fn lemma_too_long_rejected(
    f: ForumV,
    author: AccountId,
    topic: Seq<u8>,
    content: Seq<u8>,
    post: Seq<u8>,
)
    ensures
        topic.len() > TOPIC_LENGTH ==> spec_add_post(f, author, topic, content) == Err::<
            ForumV,
            DepressError,
        >(DepressError::TopicTooLong),
        topic.len() <= TOPIC_LENGTH && content.len() > CONTENT_LENGTH && !f.posts.contains_key(
            spec_post_address(author, topic),
        ) ==> spec_add_post(f, author, topic, content) == Err::<ForumV, DepressError>(
            DepressError::ContentTooLong,
        ),
        content.len() > CONTENT_LENGTH ==> spec_add_comment(f, author, post, content) == Err::<
            ForumV,
            DepressError,
        >(DepressError::CommentTooLong),
{
}

/// Round trip: reacting to a post and then removing that reaction restores
/// the forum exactly — in particular the post's like and dislike counters
/// return to their pre-reaction values, and the reaction record is gone.
pub proof fn lemma_reaction_post_round_trip(
    f: ForumV,
    author: AccountId,
    post: Seq<u8>,
    reaction: ReactionType,
)
    requires
        spec_add_reaction_post(f, author, post, reaction) is Ok,
    ensures
        ({
            let f1 = spec_add_reaction_post(f, author, post, reaction)->Ok_0;
            let raddr = spec_post_reaction_address(author, post);
            &&& spec_remove_reaction_post(f1, author, raddr) is Ok
            &&& spec_remove_reaction_post(f1, author, raddr)->Ok_0 == f
        }),
{
    let f1 = spec_add_reaction_post(f, author, post, reaction)->Ok_0;
    let raddr = spec_post_reaction_address(author, post);
    let f2 = spec_remove_reaction_post(f1, author, raddr)->Ok_0;
    assert(f2.posts =~= f.posts);
    assert(f2.post_reactions =~= f.post_reactions);
    assert(f2 =~= f);
}

/// Failure is idempotent for reaction removal: once a removal has
/// succeeded, removing the same reaction again fails with `NotFound`. The
/// operation's own contract adds that the failing call leaves the forum,
/// counters included, unchanged.
pub proof fn lemma_remove_reaction_post_twice(f: ForumV, caller: AccountId, reaction_addr: Seq<u8>)
    requires
        spec_remove_reaction_post(f, caller, reaction_addr) is Ok,
    ensures
        spec_remove_reaction_post(
            spec_remove_reaction_post(f, caller, reaction_addr)->Ok_0,
            caller,
            reaction_addr,
        ) == Err::<ForumV, DepressError>(DepressError::NotFound),
{
}

/// Underflow guard: a stored reaction whose parent post already shows zero
/// on the counter of its kind cannot be removed — the only path that would
/// decrement a post counter fails with `InvalidReactionState`. The
/// operation's own contract adds that the failing call leaves the forum
/// unchanged.
pub proof fn lemma_underflow_guarded(f: ForumV, caller: AccountId, reaction_addr: Seq<u8>)
    requires
        f.post_reactions.contains_key(reaction_addr),
        f.post_reactions[reaction_addr].reaction_author == caller,
        f.posts.contains_key(f.post_reactions[reaction_addr].parent_post),
        ({
            let rec = f.post_reactions[reaction_addr];
            &&& rec.reaction is Like ==> f.posts[rec.parent_post].likes == 0
            &&& rec.reaction is Dislike ==> f.posts[rec.parent_post].dislikes == 0
        }),
    ensures
        spec_remove_reaction_post(f, caller, reaction_addr) == Err::<ForumV, DepressError>(
            DepressError::InvalidReactionState,
        ),
{
}

/// The (author, topic) pair of a post is globally unique: in a well-formed
/// forum, two distinct active post addresses never hold the same author and
/// topic, because each record lives at the address derived from exactly
/// those fields.
pub proof fn lemma_post_identity_unique(f: ForumV, k1: Seq<u8>, k2: Seq<u8>)
    requires
        wf_forum(f),
        f.posts.contains_key(k1),
        f.posts.contains_key(k2),
        k1 != k2,
    ensures
        f.posts[k1].post_author != f.posts[k2].post_author
            || f.posts[k1].topic != f.posts[k2].topic,
{
}

/// One reaction record per (reactor, post) pair: in a well-formed forum,
/// two distinct active post-reaction addresses never hold the same reactor
/// and parent post. This is what makes the address collision the sole
/// double-voting guard.
pub proof fn lemma_post_reaction_identity_unique(f: ForumV, k1: Seq<u8>, k2: Seq<u8>)
    requires
        wf_forum(f),
        f.post_reactions.contains_key(k1),
        f.post_reactions.contains_key(k2),
        k1 != k2,
    ensures
        f.post_reactions[k1].reaction_author != f.post_reactions[k2].reaction_author
            || f.post_reactions[k1].parent_post != f.post_reactions[k2].parent_post,
{
}

/// The (author, content, post) triple of a comment is globally unique: in a
/// well-formed forum, two distinct active comment addresses never agree on
/// all three.
pub proof fn lemma_comment_identity_unique(f: ForumV, k1: Seq<u8>, k2: Seq<u8>)
    requires
        wf_forum(f),
        f.comments.contains_key(k1),
        f.comments.contains_key(k2),
        k1 != k2,
    ensures
        f.comments[k1].comment_author != f.comments[k2].comment_author || f.comments[k1].content
            != f.comments[k2].content || f.comments[k1].parent_post != f.comments[k2].parent_post,
{
}

} // verus!
