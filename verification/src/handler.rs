//! The service state: the counter and the two stores.

use crate::authorship::{create_confession_data, recorded_author, AuthorshipStore};
use crate::ledger::{
    appended, create_confession_number_data, CommunityLedger, LedgerEntry, Logs,
};
use crate::sequence::ConfessionCount;
use vstd::prelude::*;
use vstd::string::StringExecFns;

verus! {

/// Whether every post in a community's log is recorded in the authorship
/// store, under the author that the log names.
pub open spec fn consistent(authors: Map<u64, u64>, logs: Logs) -> bool {
    forall|community_id: u64, i: int|
        logs.contains_key(community_id) && 0 <= i < logs[community_id].len() ==> {
            let entry = #[trigger] logs[community_id][i];
            authors.contains_key(entry.post_id) && authors[entry.post_id] == entry.author_id
        }
}

/// The logs after `author_id` has published `post_id`: the post is added to
/// the log of the community it was published in, if it was in one.
pub open spec fn logged(logs: Logs, community_id: Option<u64>, author_id: u64, post_id: u64) -> Logs {
    match community_id {
        Some(community_id) => appended(logs, community_id, LedgerEntry { author_id, post_id }),
        None => logs,
    }
}

/// Whether `post_id` can be recorded for `author_id` without taking it from
/// somebody else: nobody is recorded for it yet, or `author_id` is.
pub open spec fn unclaimed(authors: Map<u64, u64>, author_id: u64, post_id: u64) -> bool {
    recorded_author(authors, post_id) matches Some(recorded) ==> recorded == author_id
}

/// Recording and logging a publication keeps the stores consistent, as long
/// as the platform hands out each post identifier once.
pub proof fn publication_keeps_consistency(
    authors: Map<u64, u64>,
    logs: Logs,
    community_id: Option<u64>,
    author_id: u64,
    post_id: u64,
)
    requires
        consistent(authors, logs),
        unclaimed(authors, author_id, post_id),
    ensures
        consistent(
            authors.insert(post_id, author_id),
            logged(logs, community_id, author_id, post_id),
        ),
{
    let authors_after = authors.insert(post_id, author_id);
    let logs_after = logged(logs, community_id, author_id, post_id);
    assert forall|c: u64, i: int| logs_after.contains_key(c) && 0 <= i < logs_after[c].len() implies {
        let entry = #[trigger] logs_after[c][i];
        authors_after.contains_key(entry.post_id) && authors_after[entry.post_id]
            == entry.author_id
    } by {
        let entry = logs_after[c][i];
        if logs.contains_key(c) && i < logs[c].len() {
            assert(entry == logs[c][i]);
        }
    }
}

/// Everything the service remembers. One value of this type is made at start
/// and handed to each command; nothing in it outlives the process.
pub struct Handler {
    /// The source of display numbers.
    pub count: ConfessionCount,
    /// Who wrote which post.
    pub authors: AuthorshipStore,
    /// Which posts each community has seen, in order.
    pub ledger: CommunityLedger,
}

impl Handler {
    /// Whether the ledger and the authorship store agree.
    pub open spec fn consistent(&self) -> bool {
        consistent(self.authors@, self.ledger@)
    }

    /// The state at start: no number issued, no post recorded, no log begun.
    pub fn new() -> (handler: Self)
        ensures
            handler.count.issued() == 0,
            handler.authors@ == Map::<u64, u64>::empty(),
            handler.ledger@ == Map::<u64, Seq<LedgerEntry>>::empty(),
            handler.consistent(),
    {
        Handler {
            count: ConfessionCount::new(),
            authors: create_confession_data(),
            ledger: create_confession_number_data(),
        }
    }

    /// The line that shows a message on the console: the author in square
    /// brackets, then the text, or for a message without text the address of
    /// its first attachment. A message with neither gives no line.
    pub fn display_message(author_name: &str, content: &str, attachments: &Vec<String>) -> (line:
        Option<String>)
        ensures
            line.is_some() == (content@.len() > 0 || attachments@.len() > 0),
            line matches Some(text) ==> text@ == "["@ + author_name@ + "] "@ + (if content@.len()
                > 0 {
                content@
            } else {
                attachments@[0]@
            }),
    {
        if !content.is_empty() {
            Some(String::from_str("[").concat(author_name).concat("] ").concat(content))
        } else if attachments.len() > 0 {
            Some(
                String::from_str("[").concat(author_name).concat("] ").concat(
                    attachments[0].as_str(),
                ),
            )
        } else {
            None
        }
    }
}

} // verus!
