use vstd::prelude::*;

verus! {

/// Bytes reserved at the front of every stored record for its kind tag.
pub const DISCRIMINATOR: u64 = 8;

/// Maximum byte length of a post topic.
pub const TOPIC_LENGTH: usize = 32;

/// Maximum byte length of a post body.
pub const CONTENT_LENGTH: usize = 500;

/// Maximum byte length of a comment body.
pub const COMMENT_LENGTH: usize = 500;

/// Namespace seed byte that opens every derived post address.
pub const POST_SEED: u8 = 0;

/// Namespace seed byte that opens every derived comment address.
pub const COMMENT_SEED: u8 = 1;

/// Namespace seed byte that opens every derived post-reaction address.
pub const POST_REACTION_SEED: u8 = 2;

/// Namespace seed byte that opens every derived comment-reaction address.
pub const COMMENT_REACTION_SEED: u8 = 3;

/// Canonicalization byte returned alongside every derived address.
/// Derivation is a pure function here, so a single canonical value serves
/// every entity; it is stored in each record and echoed on rederivation.
pub const CANONICAL_BUMP: u8 = 255;

/// Storage cost of a post record: discriminator, author, length-prefixed
/// topic and content at their maximum sizes, both counters, the comment
/// count, and the bump byte.
pub const POST_SPACE: u64 = 8 + 8 + (8 + 32) + (8 + 500) + 8 + 8 + 4 + 1;

/// Storage cost of a comment record: discriminator, author, the parent post
/// address at its maximum size (length-prefixed), length-prefixed content at
/// its maximum size, both counters, and the bump byte.
pub const COMMENT_SPACE: u64 = 8 + 8 + (8 + 49) + (8 + 500) + 8 + 8 + 1;

/// Storage cost of a post-reaction record: discriminator, author, the parent
/// post address at its maximum size (length-prefixed), the reaction tag, and
/// the bump byte.
pub const POST_REACTION_SPACE: u64 = 8 + 8 + (8 + 49) + 1 + 1;

/// Storage cost of a comment-reaction record: discriminator, author, the
/// parent comment address at its maximum size (length-prefixed), the
/// reaction tag, and the bump byte.
pub const COMMENT_REACTION_SPACE: u64 = 8 + 8 + (8 + 566) + 1 + 1;

} // verus!
