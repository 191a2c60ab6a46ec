//! Who wrote which published post.

use std::collections::HashMap;
use vstd::prelude::*;

verus! {

/// The author recorded for `post_id`, if the post was recorded.
pub open spec fn recorded_author(authors: Map<u64, u64>, post_id: u64) -> Option<u64> {
    if authors.contains_key(post_id) {
        Some(authors[post_id])
    } else {
        None
    }
}

/// Maps the platform identifier of each published post to the identifier of
/// its author. It is the sole authority on who may retract a post.
pub struct AuthorshipStore {
    authors: HashMap<u64, u64>,
}

impl View for AuthorshipStore {
    type V = Map<u64, u64>;

    /// The recorded authors, keyed by post identifier.
    closed spec fn view(&self) -> Map<u64, u64> {
        self.authors@
    }
}

impl AuthorshipStore {
    /// A store that knows no post.
    pub fn new() -> (store: Self)
        ensures
            store@ == Map::<u64, u64>::empty(),
    {
        AuthorshipStore { authors: HashMap::new() }
    }

    /// Records `author_id` as the author of `post_id`, in place of whoever was
    /// recorded for that post before.
    pub fn record(&mut self, post_id: u64, author_id: u64)
        ensures
            final(self)@ == old(self)@.insert(post_id, author_id),
    {
        broadcast use vstd::std_specs::hash::group_hash_axioms;

        self.authors.insert(post_id, author_id);
    }

    /// The recorded author of `post_id`, or `None` for a post that was never
    /// recorded.
    pub fn author_of(&self, post_id: u64) -> (author: Option<u64>)
        ensures
            author == recorded_author(self@, post_id),
    {
        broadcast use vstd::std_specs::hash::group_hash_axioms;

        match self.authors.get(&post_id) {
            Some(author_id) => Some(*author_id),
            None => None,
        }
    }

    /// Whether `candidate_id` is the recorded author of `post_id`. An unknown
    /// post has no author, so the answer is then `false`.
    pub fn is_author(&self, post_id: u64, candidate_id: u64) -> (matches: bool)
        ensures
            matches == (recorded_author(self@, post_id) == Some(candidate_id)),
    {
        match self.author_of(post_id) {
            Some(author_id) => author_id == candidate_id,
            None => false,
        }
    }
}

/// An empty authorship store, as the service holds one at start.
pub fn create_confession_data() -> (store: AuthorshipStore)
    ensures
        store@ == Map::<u64, u64>::empty(),
{
    AuthorshipStore::new()
}

/// Once a post is recorded, its author is found again and is confirmed as
/// its author, and nobody else is.
pub proof fn recorded_author_is_found(
    before: Map<u64, u64>,
    post_id: u64,
    author_id: u64,
    other_id: u64,
)
    requires
        other_id != author_id,
    ensures
        recorded_author(before.insert(post_id, author_id), post_id) == Some(author_id),
        recorded_author(before.insert(post_id, author_id), post_id) != Some(other_id),
{
}

/// Recording one post changes the author of no other.
pub proof fn other_posts_keep_their_author(
    before: Map<u64, u64>,
    post_id: u64,
    author_id: u64,
    other_post_id: u64,
)
    requires
        other_post_id != post_id,
    ensures
        recorded_author(before.insert(post_id, author_id), other_post_id) == recorded_author(
            before,
            other_post_id,
        ),
{
}

} // verus!
