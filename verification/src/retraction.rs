//! Deciding a retraction request.

use crate::authorship::recorded_author;
use crate::handler::{consistent, Handler};
use crate::ledger::{appended, entries_of, resolve, LedgerEntry, Logs};
use crate::reference::Reference;
use vstd::prelude::*;

verus! {

/// What becomes of a retraction request.
#[derive(Clone, Copy, Debug, PartialEq, Eq)]
pub enum Retraction {
    /// The invoker wrote the post: it is to be deleted.
    Delete { post_id: u64 },
    /// The request carries no reference.
    MissingReference,
    /// The reference starts with `#` and is no community-local number.
    MalformedOrdinal,
    /// The reference is a community-local number, and the request came from
    /// outside any community.
    NoCommunity,
    /// The community has no post with that number.
    UnknownOrdinal,
    /// The reference is no platform identifier.
    MalformedPost,
    /// The post is not in the authorship store.
    NotTracked,
    /// Somebody else wrote the post.
    NotAuthor,
}

/// Whether `invoker_id` may retract `post_id`: only a recorded post can be
/// retracted, and only by its recorded author.
pub open spec fn authorize(authors: Map<u64, u64>, invoker_id: u64, post_id: u64) -> Retraction {
    match recorded_author(authors, post_id) {
        None => Retraction::NotTracked,
        Some(author_id) => if author_id == invoker_id {
            Retraction::Delete { post_id }
        } else {
            Retraction::NotAuthor
        },
    }
}

/// The post that a well-formed reference names, or the reason why it names
/// none.
pub open spec fn target(logs: Logs, community_id: Option<u64>, reference: Reference) -> Result<
    u64,
    Retraction,
> {
    match reference {
        Reference::MalformedOrdinal => Err(Retraction::MalformedOrdinal),
        Reference::MalformedPost => Err(Retraction::MalformedPost),
        Reference::Post(post_id) => Ok(post_id),
        Reference::Ordinal(local_number) => match community_id {
            None => Err(Retraction::NoCommunity),
            Some(community_id) => match resolve(logs, community_id, local_number as int) {
                None => Err(Retraction::UnknownOrdinal),
                Some(entry) => Ok(entry.post_id),
            },
        },
    }
}

/// What becomes of a request by `invoker_id`, made in `community_id`, to
/// retract what `reference` names.
pub open spec fn retraction(
    authors: Map<u64, u64>,
    logs: Logs,
    invoker_id: u64,
    community_id: Option<u64>,
    reference: Reference,
) -> Retraction {
    match target(logs, community_id, reference) {
        Err(refusal) => refusal,
        Ok(post_id) => authorize(authors, invoker_id, post_id),
    }
}

/// The answer shown to the invoker. For `Delete` it is the confirmation, to
/// be shown once the post is gone.
pub open spec fn reply_text(verdict: Retraction) -> Seq<char> {
    match verdict {
        Retraction::Delete { .. } => ":white_check_mark: Confession deleted."@,
        Retraction::MissingReference => "Expected the id or the number of a confession."@,
        Retraction::MalformedOrdinal => "Incorrect input. If you want to delete your confession try puting correct confession number for example `/delete #12` to delete confession with number 12)"@,
        Retraction::NoCommunity => "You can only use this bot in actual discord servers."@,
        Retraction::UnknownOrdinal => "Failed to find the confession. Was the confession number correct?"@,
        Retraction::MalformedPost => "Expected a positive number (usually 18-19 digits)."@,
        Retraction::NotTracked => "Message with that id does not exist"@,
        Retraction::NotAuthor => "You're not the author of that confession or message wasn't recorded"@,
    }
}

impl Retraction {
    /// The answer shown to the invoker.
    pub fn reply(&self) -> (text: &'static str)
        ensures
            text@ == reply_text(*self),
    {
        match self {
            Retraction::Delete { .. } => ":white_check_mark: Confession deleted.",
            Retraction::MissingReference => "Expected the id or the number of a confession.",
            Retraction::MalformedOrdinal => "Incorrect input. If you want to delete your confession try puting correct confession number for example `/delete #12` to delete confession with number 12)",
            Retraction::NoCommunity => "You can only use this bot in actual discord servers.",
            Retraction::UnknownOrdinal => "Failed to find the confession. Was the confession number correct?",
            Retraction::MalformedPost => "Expected a positive number (usually 18-19 digits).",
            Retraction::NotTracked => "Message with that id does not exist",
            Retraction::NotAuthor => "You're not the author of that confession or message wasn't recorded",
        }
    }
}

/// Decides a retraction request whose reference has been read.
pub fn retract(
    handler: &Handler,
    invoker_id: u64,
    community_id: Option<u64>,
    reference: Reference,
) -> (verdict: Retraction)
    ensures
        verdict == retraction(
            handler.authors@,
            handler.ledger@,
            invoker_id,
            community_id,
            reference,
        ),
{
    let post_id: u64 = match reference {
        Reference::MalformedOrdinal => {
            return Retraction::MalformedOrdinal;
        },
        Reference::MalformedPost => {
            return Retraction::MalformedPost;
        },
        Reference::Post(post_id) => post_id,
        Reference::Ordinal(local_number) => {
            let community_id: u64 = match community_id {
                Some(community_id) => community_id,
                None => {
                    return Retraction::NoCommunity;
                },
            };
            match handler.ledger.lookup(community_id, local_number) {
                Some(entry) => entry.post_id,
                None => {
                    return Retraction::UnknownOrdinal;
                },
            }
        },
    };
    match handler.authors.author_of(post_id) {
        None => Retraction::NotTracked,
        Some(author_id) => if author_id == invoker_id {
            Retraction::Delete { post_id }
        } else {
            Retraction::NotAuthor
        },
    }
}

/// The recorded author of a post may retract it, by whichever reference the
/// post is named; anybody else is refused as not being the author.
pub proof fn only_the_author_retracts(
    authors: Map<u64, u64>,
    logs: Logs,
    community_id: Option<u64>,
    reference: Reference,
    post_id: u64,
    author_id: u64,
    other_id: u64,
)
    requires
        target(logs, community_id, reference) == Ok::<u64, Retraction>(post_id),
        recorded_author(authors, post_id) == Some(author_id),
        other_id != author_id,
    ensures
        retraction(authors, logs, author_id, community_id, reference) == (Retraction::Delete {
            post_id,
        }),
        retraction(authors, logs, other_id, community_id, reference) == Retraction::NotAuthor,
{
}

/// A post that was never recorded is reported as not tracked, whoever asks,
/// and so is never deleted.
pub proof fn unrecorded_post_is_not_tracked(
    authors: Map<u64, u64>,
    logs: Logs,
    invoker_id: u64,
    community_id: Option<u64>,
    reference: Reference,
    post_id: u64,
)
    requires
        target(logs, community_id, reference) == Ok::<u64, Retraction>(post_id),
        recorded_author(authors, post_id).is_none(),
    ensures
        retraction(authors, logs, invoker_id, community_id, reference) == Retraction::NotTracked,
{
}

/// Where the stores are consistent, the author that a community's log names
/// for a post decides as the authorship store does: that author may retract
/// the post, and nobody else.
pub proof fn log_and_store_agree(
    authors: Map<u64, u64>,
    logs: Logs,
    invoker_id: u64,
    community_id: u64,
    local_number: int,
    entry: LedgerEntry,
)
    requires
        consistent(authors, logs),
        resolve(logs, community_id, local_number) == Some(entry),
    ensures
        authorize(authors, invoker_id, entry.post_id) == if entry.author_id == invoker_id {
            Retraction::Delete { post_id: entry.post_id }
        } else {
            Retraction::NotAuthor
        },
{
    assert(entry == logs[community_id][local_number - 1]);
}

/// A post that has just been recorded and logged for its author can be
/// retracted by that author, named by its identifier or by the number that
/// its community gave it.
pub proof fn published_post_is_retractable(
    authors: Map<u64, u64>,
    logs: Logs,
    author_id: u64,
    community_id: u64,
    post_id: u64,
)
    requires
        entries_of(logs, community_id).len() < usize::MAX,
    ensures
        ({
            let authors_after = authors.insert(post_id, author_id);
            let logs_after = appended(logs, community_id, LedgerEntry { author_id, post_id });
            let local_number = (entries_of(logs, community_id).len() + 1) as usize;
            &&& retraction(authors_after, logs_after, author_id, None, Reference::Post(post_id))
                == (Retraction::Delete { post_id })
            &&& retraction(
                authors_after,
                logs_after,
                author_id,
                Some(community_id),
                Reference::Ordinal(local_number),
            ) == (Retraction::Delete { post_id })
        }),
{
}

/// Somebody who is refused as not being the author reads another answer
/// than somebody whose reference names nothing, so the two are never taken
/// for one another.
pub proof fn refusals_are_told_apart()
    ensures
        reply_text(Retraction::NotAuthor) != reply_text(Retraction::NotTracked),
        reply_text(Retraction::NotAuthor) != reply_text(Retraction::UnknownOrdinal),
        reply_text(Retraction::NotAuthor) != reply_text(Retraction::NoCommunity),
{
    reveal_strlit("You're not the author of that confession or message wasn't recorded");
    reveal_strlit("Message with that id does not exist");
    reveal_strlit("Failed to find the confession. Was the confession number correct?");
    reveal_strlit("You can only use this bot in actual discord servers.");
    let refused = reply_text(Retraction::NotAuthor);
    assert(refused[0] != reply_text(Retraction::NotTracked)[0]);
    assert(refused[0] != reply_text(Retraction::UnknownOrdinal)[0]);
    assert(refused[3] != reply_text(Retraction::NoCommunity)[3]);
}

} // verus!
