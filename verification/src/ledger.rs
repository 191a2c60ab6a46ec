//! The per-community log of published posts.

use std::collections::HashMap;
use vstd::prelude::*;

verus! {

/// One line of a community's log: a published post and its author.
#[derive(Clone, Copy, Debug, PartialEq, Eq)]
pub struct LedgerEntry {
    pub author_id: u64,
    pub post_id: u64,
}

/// What a ledger holds, as mathematics: for each community that has a log, the
/// entries in the order of their arrival.
pub type Logs = Map<u64, Seq<LedgerEntry>>;

/// The log of `community_id`; a community without a log has an empty one.
pub open spec fn entries_of(logs: Logs, community_id: u64) -> Seq<LedgerEntry> {
    if logs.contains_key(community_id) {
        logs[community_id]
    } else {
        Seq::empty()
    }
}

/// The entry that the community-local number `local_number` names. Numbers
/// count from 1; any number outside `1..=len` names nothing.
pub open spec fn resolve(logs: Logs, community_id: u64, local_number: int) -> Option<LedgerEntry> {
    let log = entries_of(logs, community_id);
    if 1 <= local_number <= log.len() {
        Some(log[local_number - 1])
    } else {
        None
    }
}

/// The logs after one more entry has arrived in `community_id`.
pub open spec fn appended(logs: Logs, community_id: u64, entry: LedgerEntry) -> Logs {
    logs.insert(community_id, entries_of(logs, community_id).push(entry))
}

/// For each community, the posts published there in order. A post's
/// community-local number is its position in that order, counted from 1; it
/// is not stored, so entries are only ever added at the end.
pub struct CommunityLedger {
    logs: HashMap<u64, Vec<LedgerEntry>>,
}

impl View for CommunityLedger {
    type V = Logs;

    closed spec fn view(&self) -> Logs {
        self.logs@.map_values(|log: Vec<LedgerEntry>| log@)
    }
}

impl CommunityLedger {
    /// A ledger in which no community has a log.
    pub fn new() -> (ledger: Self)
        ensures
            ledger@ == Map::<u64, Seq<LedgerEntry>>::empty(),
    {
        let ledger = CommunityLedger { logs: HashMap::new() };
        assert(ledger@ =~= Map::<u64, Seq<LedgerEntry>>::empty());
        ledger
    }

    /// Adds a post at the end of `community_id`'s log, starting the log if the
    /// community had none, and returns the post's community-local number: the
    /// length of the log after the addition.
    pub fn append(&mut self, community_id: u64, author_id: u64, post_id: u64) -> (local_number: usize)
        ensures
            final(self)@ == appended(old(self)@, community_id, LedgerEntry { author_id, post_id }),
            local_number == entries_of(old(self)@, community_id).len() + 1,
    {
        broadcast use vstd::std_specs::hash::group_hash_axioms;

        let log = self.logs.entry(community_id).or_insert(Vec::new());
        log.push(LedgerEntry { author_id, post_id });
        let local_number: usize = log.len();
        assert(self@ =~= appended(old(self)@, community_id, LedgerEntry { author_id, post_id }));
        local_number
    }

    /// The entry with the community-local number `local_number` in
    /// `community_id`, or `None` where the number is 0 or beyond the end of
    /// the log.
    pub fn lookup(&self, community_id: u64, local_number: usize) -> (entry: Option<LedgerEntry>)
        ensures
            entry == resolve(self@, community_id, local_number as int),
    {
        broadcast use vstd::std_specs::hash::group_hash_axioms;

        match self.logs.get(&community_id) {
            Some(log) => {
                if 1 <= local_number && local_number <= log.len() {
                    Some(log[local_number - 1])
                } else {
                    None
                }
            },
            None => None,
        }
    }
}

/// An empty ledger, as the service holds one at start.
pub fn create_confession_number_data() -> (ledger: CommunityLedger)
    ensures
        ledger@ == Map::<u64, Seq<LedgerEntry>>::empty(),
{
    CommunityLedger::new()
}

/// A post as it arrives at the ledger: the community it was published in,
/// and the entry for it.
pub struct Arrival {
    pub community_id: u64,
    pub entry: LedgerEntry,
}

/// The logs after `arrivals` have been appended, the first of them first.
pub open spec fn after_arrivals(logs: Logs, arrivals: Seq<Arrival>) -> Logs
    decreases arrivals.len(),
{
    if arrivals.len() == 0 {
        logs
    } else {
        appended(
            after_arrivals(logs, arrivals.drop_last()),
            arrivals.last().community_id,
            arrivals.last().entry,
        )
    }
}

/// The entries among `arrivals` that belong to `community_id`, in their order.
pub open spec fn arrivals_in(arrivals: Seq<Arrival>, community_id: u64) -> Seq<LedgerEntry>
    decreases arrivals.len(),
{
    if arrivals.len() == 0 {
        Seq::empty()
    } else {
        let earlier = arrivals_in(arrivals.drop_last(), community_id);
        if arrivals.last().community_id == community_id {
            earlier.push(arrivals.last().entry)
        } else {
            earlier
        }
    }
}

/// An appended entry gets the number after the last one, and is found under
/// it.
pub proof fn appended_entry_is_last(logs: Logs, community_id: u64, entry: LedgerEntry)
    ensures
        entries_of(appended(logs, community_id, entry), community_id).len() == entries_of(
            logs,
            community_id,
        ).len() + 1,
        resolve(
            appended(logs, community_id, entry),
            community_id,
            entries_of(logs, community_id).len() as int + 1,
        ) == Some(entry),
{
}

/// A number that names an entry keeps naming that entry, whatever is appended
/// and wherever.
pub proof fn numbers_are_stable(
    logs: Logs,
    community_id: u64,
    local_number: int,
    arrivals: Seq<Arrival>,
)
    requires
        resolve(logs, community_id, local_number).is_some(),
    ensures
        resolve(after_arrivals(logs, arrivals), community_id, local_number) == resolve(
            logs,
            community_id,
            local_number,
        ),
    decreases arrivals.len(),
{
    if arrivals.len() > 0 {
        numbers_are_stable(logs, community_id, local_number, arrivals.drop_last());
    }
}

/// A community's log grows by its own arrivals alone, in their order: what
/// arrives in other communities in between changes neither its entries nor
/// their numbers. So the N-th post to arrive in a community that had no log
/// gets the number N.
pub proof fn community_numbering_is_its_own(
    logs: Logs,
    arrivals: Seq<Arrival>,
    community_id: u64,
)
    ensures
        entries_of(after_arrivals(logs, arrivals), community_id) == entries_of(logs, community_id)
            + arrivals_in(arrivals, community_id),
    decreases arrivals.len(),
{
    if arrivals.len() > 0 {
        community_numbering_is_its_own(logs, arrivals.drop_last(), community_id);
    }
    assert(entries_of(after_arrivals(logs, arrivals), community_id) =~= entries_of(
        logs,
        community_id,
    ) + arrivals_in(arrivals, community_id));
}

/// Three posts appended to a community that had no log have the numbers 1, 2
/// and 3, in the order of their arrival; 0 and 4 name nothing.
pub proof fn three_posts_resolve_in_order(
    logs: Logs,
    community_id: u64,
    first: LedgerEntry,
    second: LedgerEntry,
    third: LedgerEntry,
)
    requires
        entries_of(logs, community_id).len() == 0,
    ensures
        ({
            let after = appended(
                appended(appended(logs, community_id, first), community_id, second),
                community_id,
                third,
            );
            &&& resolve(after, community_id, 1) == Some(first)
            &&& resolve(after, community_id, 2) == Some(second)
            &&& resolve(after, community_id, 3) == Some(third)
            &&& resolve(after, community_id, 0).is_none()
            &&& resolve(after, community_id, 4).is_none()
        }),
{
}

} // verus!
