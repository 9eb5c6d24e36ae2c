use vstd::prelude::*;
use crate::address::{
    spec_comment_address, spec_comment_reaction_address, spec_post_address,
    spec_post_reaction_address, Address,
};
use crate::constants::{CANONICAL_BUMP, COMMENT_LENGTH, CONTENT_LENGTH, TOPIC_LENGTH};
use crate::states::{
    Comment, CommentV, Post, PostV, ReactionComment, ReactionCommentV, ReactionPost,
    ReactionPostV,
};
use crate::store::Store;

verus! {

/// The mathematical value of the whole forum: one address-keyed map per
/// entity kind.
#[verifier::ext_equal]
pub ghost struct ForumV {
    pub posts: Map<Seq<u8>, PostV>,
    pub comments: Map<Seq<u8>, CommentV>,
    pub post_reactions: Map<Seq<u8>, ReactionPostV>,
    pub comment_reactions: Map<Seq<u8>, ReactionCommentV>,
}

/// Every stored record lives at the address derived from its own identity
/// fields, keeps its text within the declared byte bounds, and carries the
/// canonical bump. Parent references may dangle: removing a post leaves its
/// comments and reactions in place.
pub open spec fn wf_forum(f: ForumV) -> bool {
    &&& forall|k: Seq<u8>| #[trigger] f.posts.contains_key(k) ==> {
        let p = f.posts[k];
        &&& k == spec_post_address(p.post_author, p.topic)
        &&& p.topic.len() <= TOPIC_LENGTH
        &&& p.content.len() <= CONTENT_LENGTH
        &&& p.bump == CANONICAL_BUMP
    }
    &&& forall|k: Seq<u8>| #[trigger] f.comments.contains_key(k) ==> {
        let c = f.comments[k];
        &&& k == spec_comment_address(c.comment_author, c.content, c.parent_post)
        &&& c.content.len() <= COMMENT_LENGTH
        &&& c.bump == CANONICAL_BUMP
    }
    &&& forall|k: Seq<u8>| #[trigger] f.post_reactions.contains_key(k) ==> {
        let r = f.post_reactions[k];
        &&& k == spec_post_reaction_address(r.reaction_author, r.parent_post)
        &&& r.bump == CANONICAL_BUMP
    }
    &&& forall|k: Seq<u8>| #[trigger] f.comment_reactions.contains_key(k) ==> {
        let r = f.comment_reactions[k];
        &&& k == spec_comment_reaction_address(r.reaction_author, r.parent_comment)
        &&& r.bump == CANONICAL_BUMP
    }
}

/// The forum: the canonical records of every active entity, one
/// content-addressed store per kind. The execution substrate runs each
/// operation on it atomically and without interleaving, so the operations
/// need no locking of their own.
pub struct Forum {
    pub posts: Store<Post>,
    pub comments: Store<Comment>,
    pub post_reactions: Store<ReactionPost>,
    pub comment_reactions: Store<ReactionComment>,
}

impl View for Forum {
    type V = ForumV;

    open spec fn view(&self) -> ForumV {
        ForumV {
            posts: self.posts@,
            comments: self.comments@,
            post_reactions: self.post_reactions@,
            comment_reactions: self.comment_reactions@,
        }
    }
}

impl Forum {
    /// The stores are well formed and every record is consistent with its
    /// address.
    pub open spec fn wf(self) -> bool {
        &&& self.posts.wf()
        &&& self.comments.wf()
        &&& self.post_reactions.wf()
        &&& self.comment_reactions.wf()
        &&& wf_forum(self@)
    }

    /// Creates an empty forum.
    pub fn new() -> (f: Forum)
        ensures
            f.wf(),
            f@.posts == Map::<Seq<u8>, PostV>::empty(),
            f@.comments == Map::<Seq<u8>, CommentV>::empty(),
            f@.post_reactions == Map::<Seq<u8>, ReactionPostV>::empty(),
            f@.comment_reactions == Map::<Seq<u8>, ReactionCommentV>::empty(),
    {
        Forum {
            posts: Store::new(),
            comments: Store::new(),
            post_reactions: Store::new(),
            comment_reactions: Store::new(),
        }
    }

    /// Looks up the post at `post`, if one is active there.
    pub fn get_post(&self, post: &Address) -> (r: Option<&Post>)
        requires
            self.wf(),
        ensures
            match r {
                Some(p) => self@.posts.contains_key(post@) && p@ == self@.posts[post@],
                None => !self@.posts.contains_key(post@),
            },
    {
        self.posts.get(post)
    }

    /// Looks up the comment at `comment`, if one is active there.
    pub fn get_comment(&self, comment: &Address) -> (r: Option<&Comment>)
        requires
            self.wf(),
        ensures
            match r {
                Some(c) => self@.comments.contains_key(comment@) && c@
                    == self@.comments[comment@],
                None => !self@.comments.contains_key(comment@),
            },
    {
        self.comments.get(comment)
    }

    /// Looks up the post reaction at `reaction`, if one is active there.
    pub fn get_post_reaction(&self, reaction: &Address) -> (r: Option<&ReactionPost>)
        requires
            self.wf(),
        ensures
            match r {
                Some(x) => self@.post_reactions.contains_key(reaction@) && x@
                    == self@.post_reactions[reaction@],
                None => !self@.post_reactions.contains_key(reaction@),
            },
    {
        self.post_reactions.get(reaction)
    }

    /// Looks up the comment reaction at `reaction`, if one is active there.
    pub fn get_comment_reaction(&self, reaction: &Address) -> (r: Option<&ReactionComment>)
        requires
            self.wf(),
        ensures
            match r {
                Some(x) => self@.comment_reactions.contains_key(reaction@) && x@
                    == self@.comment_reactions[reaction@],
                None => !self@.comment_reactions.contains_key(reaction@),
            },
    {
        self.comment_reactions.get(reaction)
    }
}

} // verus!
