use vstd::prelude::*;

verus! {

/// Every way an operation can refuse to act. Each error is returned before
/// any state is mutated: a failing operation leaves the forum unchanged.
#[derive(Clone, Copy, Debug, PartialEq, Eq, Structural)]
pub enum DepressError {
    /// A post topic exceeded `TOPIC_LENGTH` bytes.
    TopicTooLong,
    /// A post body exceeded `CONTENT_LENGTH` bytes.
    ContentTooLong,
    /// A decrement was asked of a counter that is already zero.
    InvalidReactionState,
    /// A like counter is already at its maximum width.
    MaxLikesReached,
    /// A dislike counter is already at its maximum width.
    MaxDislikesReached,
    /// Reserved bound violation on the like counter.
    MinLikesReached,
    /// Reserved bound violation on the dislike counter.
    MinDislikesReached,
    /// The caller is not the stored author of the entity.
    InvalidOwner,
    /// A comment body exceeded `COMMENT_LENGTH` bytes.
    CommentTooLong,
    /// A post's comment count is already at its maximum width.
    TooManyComments,
    /// The derived address is already occupied: the same logical identity
    /// was submitted twice. This is the sole duplicate-submission guard.
    DuplicateEntity,
    /// No entity lives at the given address.
    NotFound,
}

} // verus!
