use vstd::prelude::*;

use crate::state::{
    add_outcome, appended, empty_registry, fits, init_outcome, new_entry, registry_wf,
    vote_outcome, RegistryError, RegistryModel,
};

verus! {

/// After any run of successful appends the count has grown by the number of
/// appends, the earlier entries are kept, and the new entries follow them in
/// the order of the appends, each with its link, its author and no votes.
pub proof fn lemma_successful_appends(
    states: Seq<RegistryModel>,
    links: Seq<Seq<char>>,
    authors: Seq<[u8; 32]>,
    signed: Seq<bool>,
)
    requires
        states.len() == links.len() + 1,
        authors.len() == links.len(),
        signed.len() == links.len(),
        forall|k: int|
            0 <= k < links.len() ==> #[trigger] add_outcome(states[k], links[k], authors[k], signed[k])
                == (states[k + 1], Ok::<(), RegistryError>(())),
    ensures
        states.last().total == states[0].total + links.len(),
        states.last().entries == states[0].entries + Seq::new(
            links.len(),
            |j: int| new_entry(links[j], authors[j]),
        ),
    decreases links.len(),
{
    let n = links.len() as int;
    if n == 0 {
        assert(states[0].entries + Seq::new(0, |j: int| new_entry(links[j], authors[j]))
            =~= states[0].entries);
    } else {
        let k = n - 1;
        assert(add_outcome(states[k], links[k], authors[k], signed[k]) == (
            states[k + 1],
            Ok::<(), RegistryError>(()),
        ));
        lemma_successful_appends(
            states.drop_last(),
            links.drop_last(),
            authors.drop_last(),
            signed.drop_last(),
        );
        assert(states[n] == appended(states[k], links[k], authors[k]));
        assert(states[0].entries + Seq::new(links.len(), |j: int| new_entry(links[j], authors[j]))
            =~= (states[0].entries + Seq::new(
            links.drop_last().len(),
            |j: int| new_entry(links.drop_last()[j], authors.drop_last()[j]),
        )).push(new_entry(links[k], authors[k])));
    }
}

/// Starting from a fresh registry, the count after a run of successful
/// appends is the number of appends.
pub proof fn lemma_appends_from_empty(
    states: Seq<RegistryModel>,
    links: Seq<Seq<char>>,
    authors: Seq<[u8; 32]>,
    signed: Seq<bool>,
)
    requires
        states.len() == links.len() + 1,
        authors.len() == links.len(),
        signed.len() == links.len(),
        states[0] == empty_registry(),
        forall|k: int|
            0 <= k < links.len() ==> #[trigger] add_outcome(states[k], links[k], authors[k], signed[k])
                == (states[k + 1], Ok::<(), RegistryError>(())),
    ensures
        states.last().total == links.len(),
        states.last().entries.len() == links.len(),
        forall|j: int|
            0 <= j < links.len() ==> #[trigger] states.last().entries[j] == new_entry(
                links[j],
                authors[j],
            ),
{
    lemma_successful_appends(states, links, authors, signed);
}

/// Initializing a slot a second time fails with `AlreadyInitialized` and
/// leaves the slot as the first initialization made it.
pub proof fn lemma_initialize_twice(slot: Option<RegistryModel>, signed1: bool, signed2: bool)
    requires
        init_outcome(slot, signed1).1 is Ok,
    ensures
        init_outcome(init_outcome(slot, signed1).0, signed2) == (
            init_outcome(slot, signed1).0,
            Err::<(), RegistryError>(RegistryError::AlreadyInitialized),
        ),
{
}

/// An append without the author's signature fails with `Unauthorized` and
/// changes nothing.
pub proof fn lemma_unsigned_append(r: RegistryModel, link: Seq<char>, author: [u8; 32])
    ensures
        add_outcome(r, link, author, false) == (r, Err::<(), RegistryError>(RegistryError::Unauthorized)),
{
}

/// A signed vote on an existing entry raises exactly the chosen counter of
/// that entry by one, and leaves the count and every other entry as they were.
pub proof fn lemma_vote_in_range(r: RegistryModel, i: nat, up: bool)
    requires
        registry_wf(r),
        i < r.total,
    ensures
        ({
            let (r2, res) = vote_outcome(r, i, up, true);
            &&& res is Ok
            &&& r2.total == r.total
            &&& r2.entries.len() == r.entries.len()
            &&& r2.entries[i as int].link == r.entries[i as int].link
            &&& r2.entries[i as int].author == r.entries[i as int].author
            &&& r2.entries[i as int].upvotes == r.entries[i as int].upvotes + (if up { 1int } else { 0 })
            &&& r2.entries[i as int].downvotes == r.entries[i as int].downvotes + (if up { 0int } else { 1 })
            &&& forall|j: int| 0 <= j < r.entries.len() && j != i ==> #[trigger] r2.entries[j] == r.entries[j]
        }),
{
}

/// A signed vote on an index past the last entry fails with
/// `IndexOutOfRange` and changes nothing.
pub proof fn lemma_vote_out_of_range(r: RegistryModel, i: nat, up: bool)
    requires
        i >= r.total,
    ensures
        vote_outcome(r, i, up, true) == (r, Err::<(), RegistryError>(RegistryError::IndexOutOfRange)),
{
}

/// A signed append whose entry would not fit in the account fails with
/// `CapacityExceeded` and changes nothing.
pub proof fn lemma_append_over_capacity(r: RegistryModel, link: Seq<char>, author: [u8; 32])
    requires
        !fits(appended(r, link, author)),
    ensures
        add_outcome(r, link, author, true) == (r, Err::<(), RegistryError>(RegistryError::CapacityExceeded)),
{
}

} // verus!
