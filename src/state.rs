use vstd::prelude::*;
use vstd::utf8::encode_utf8;

verus! {

/// Bytes reserved for the storage account when it is created.
pub const ACCOUNT_SPACE: u64 = 9000;

/// Bytes at the start of the account that tag it as a registry.
pub const DISCRIMINATOR_LEN: u64 = 8;

/// Bytes of an entry besides its link text: the link's length prefix,
/// the author's key and the two counters.
pub const ENTRY_FIXED_LEN: u64 = 52;

/// Bytes of the record besides its entries: the count and the list's length prefix.
pub const RECORD_FIXED_LEN: u64 = 12;

/// Why an operation on the registry was refused. A refused operation
/// changes nothing.
#[derive(Debug, Clone, Copy, PartialEq, Eq, Structural)]
pub enum RegistryError {
    /// The storage slot already holds a registry.
    AlreadyInitialized,
    /// The request does not carry the signature it needs.
    Unauthorized,
    /// No entry stands at the index voted on.
    IndexOutOfRange,
    /// The entry would not fit in the space reserved for the registry.
    CapacityExceeded,
}

/// One submitted link.
pub struct ItemStruct {
    pub gif_link: String,
    /// Public key of the signer who appended the entry.
    pub user_address: [u8; 32],
    pub upvote: u64,
    pub downvote: u64,
}

/// The registry record: the number of entries and the entries in the
/// order in which they were appended.
pub struct BaseAccount {
    pub total_gifs: u64,
    pub gif_list: Vec<ItemStruct>,
}

/// The accounts of a request that creates the registry.
pub struct StartStuffOff {
    /// The storage slot: `None` while no registry has been created there.
    pub base_account: Option<BaseAccount>,
    /// The payer of the new account.
    pub user: [u8; 32],
    /// Whether `user` signed the request.
    pub user_is_signer: bool,
}

/// The accounts of a request that appends to or votes in the registry.
pub struct AddGif {
    pub base_account: BaseAccount,
    /// The identity that makes the request.
    pub user: [u8; 32],
    /// Whether `user` signed the request.
    pub user_is_signer: bool,
}

/// What an entry is, mathematically.
pub struct EntryModel {
    pub link: Seq<char>,
    pub author: [u8; 32],
    pub upvotes: nat,
    pub downvotes: nat,
}

/// What the registry is, mathematically.
pub struct RegistryModel {
    pub total: nat,
    pub entries: Seq<EntryModel>,
}

impl View for ItemStruct {
    type V = EntryModel;

    open spec fn view(&self) -> EntryModel {
        EntryModel {
            link: self.gif_link@,
            author: self.user_address,
            upvotes: self.upvote as nat,
            downvotes: self.downvote as nat,
        }
    }
}

impl View for BaseAccount {
    type V = RegistryModel;

    open spec fn view(&self) -> RegistryModel {
        RegistryModel {
            total: self.total_gifs as nat,
            entries: self.gif_list@.map_values(|e: ItemStruct| e@),
        }
    }
}

/// The registry held by a storage slot, if any.
pub open spec fn slot_view(slot: Option<BaseAccount>) -> Option<RegistryModel> {
    match slot {
        Some(a) => Some(a@),
        None => None,
    }
}

/// Serialized size of an entry with the given link.
pub open spec fn entry_size(link: Seq<char>) -> nat {
    (ENTRY_FIXED_LEN + encode_utf8(link).len()) as nat
}

/// Serialized size of a list of entries, without its length prefix.
pub open spec fn entries_size(entries: Seq<EntryModel>) -> nat
    decreases entries.len(),
{
    if entries.len() == 0 {
        0
    } else {
        entries_size(entries.drop_last()) + entry_size(entries.last().link)
    }
}

/// Bytes of the account that a registry occupies, its tag included.
pub open spec fn space_used(r: RegistryModel) -> nat {
    (DISCRIMINATOR_LEN + RECORD_FIXED_LEN + entries_size(r.entries)) as nat
}

/// The registry fits in the space reserved for it.
pub open spec fn fits(r: RegistryModel) -> bool {
    space_used(r) <= ACCOUNT_SPACE
}

/// The invariant of a registry: its count is its number of entries, and it fits.
pub open spec fn registry_wf(r: RegistryModel) -> bool {
    r.total == r.entries.len() && fits(r)
}

/// The registry that initialization writes.
pub open spec fn empty_registry() -> RegistryModel {
    RegistryModel { total: 0, entries: Seq::empty() }
}

/// A freshly appended entry.
pub open spec fn new_entry(link: Seq<char>, author: [u8; 32]) -> EntryModel {
    EntryModel { link, author, upvotes: 0, downvotes: 0 }
}

/// The registry with one more entry at its end.
pub open spec fn appended(r: RegistryModel, link: Seq<char>, author: [u8; 32]) -> RegistryModel {
    RegistryModel { total: r.total + 1, entries: r.entries.push(new_entry(link, author)) }
}

/// The registry with one counter of entry `i` raised by one: the upvotes
/// when `up` holds, else the downvotes.
pub open spec fn voted(r: RegistryModel, i: int, up: bool) -> RegistryModel {
    let e = r.entries[i];
    let e2 = if up {
        EntryModel { upvotes: e.upvotes + 1, ..e }
    } else {
        EntryModel { downvotes: e.downvotes + 1, ..e }
    };
    RegistryModel { total: r.total, entries: r.entries.update(i, e2) }
}

/// Slot contents and result of initializing a slot.
pub open spec fn init_outcome(slot: Option<RegistryModel>, signed: bool) -> (
    Option<RegistryModel>,
    Result<(), RegistryError>,
) {
    if slot.is_some() {
        (slot, Err(RegistryError::AlreadyInitialized))
    } else if !signed {
        (slot, Err(RegistryError::Unauthorized))
    } else {
        (Some(empty_registry()), Ok(()))
    }
}

/// Registry and result of appending `link` on behalf of `author`.
pub open spec fn add_outcome(r: RegistryModel, link: Seq<char>, author: [u8; 32], signed: bool) -> (
    RegistryModel,
    Result<(), RegistryError>,
) {
    if !signed {
        (r, Err(RegistryError::Unauthorized))
    } else if !fits(appended(r, link, author)) {
        (r, Err(RegistryError::CapacityExceeded))
    } else {
        (appended(r, link, author), Ok(()))
    }
}

/// Registry and result of voting on index `i`.
pub open spec fn vote_outcome(r: RegistryModel, i: nat, up: bool, signed: bool) -> (
    RegistryModel,
    Result<(), RegistryError>,
) {
    if !signed {
        (r, Err(RegistryError::Unauthorized))
    } else if i >= r.total {
        (r, Err(RegistryError::IndexOutOfRange))
    } else {
        (voted(r, i as int, up), Ok(()))
    }
}

/// A prefix of a list of entries takes no more space than the whole list.
pub proof fn lemma_entries_size_prefix(entries: Seq<EntryModel>, k: int)
    requires
        0 <= k <= entries.len(),
    ensures
        entries_size(entries.take(k)) <= entries_size(entries),
    decreases entries.len(),
{
    if k == entries.len() {
        assert(entries.take(k) =~= entries);
    } else {
        assert(entries.drop_last().take(k) =~= entries.take(k));
        lemma_entries_size_prefix(entries.drop_last(), k);
    }
}

/// Replacing an entry by one with the same link keeps the size of the list.
pub proof fn lemma_entries_size_update(entries: Seq<EntryModel>, i: int, e: EntryModel)
    requires
        0 <= i < entries.len(),
        e.link == entries[i].link,
    ensures
        entries_size(entries.update(i, e)) == entries_size(entries),
    decreases entries.len(),
{
    let u = entries.update(i, e);
    if i < entries.len() - 1 {
        assert(u.drop_last() =~= entries.drop_last().update(i, e));
        lemma_entries_size_update(entries.drop_last(), i, e);
    } else {
        assert(u.drop_last() =~= entries.drop_last());
    }
}

/// Each entry takes at least one byte.
pub proof fn lemma_entries_size_at_least_len(entries: Seq<EntryModel>)
    ensures
        entries_size(entries) >= entries.len(),
    decreases entries.len(),
{
    if entries.len() > 0 {
        lemma_entries_size_at_least_len(entries.drop_last());
    }
}

/// Appending an entry adds its size to the size of the list.
pub proof fn lemma_entries_size_push(entries: Seq<EntryModel>, e: EntryModel)
    ensures
        entries_size(entries.push(e)) == entries_size(entries) + entry_size(e.link),
{
    assert(entries.push(e).drop_last() =~= entries);
}

impl BaseAccount {
    /// The invariant of the record.
    pub open spec fn wf(&self) -> bool {
        registry_wf(self@)
    }

    /// An empty registry.
    pub fn new() -> (r: BaseAccount)
        ensures
            r@ == empty_registry(),
            r.wf(),
    {
        let r = BaseAccount { total_gifs: 0, gif_list: Vec::new() };
        assert(r@.entries =~= Seq::<EntryModel>::empty());
        r
    }

    /// Whether the record meets its invariant: the count matches the list,
    /// and the record fits in the account.
    pub fn is_well_formed(&self) -> (r: bool)
        requires
            forall|j: int|
                0 <= j < self.gif_list@.len() ==> encode_utf8(#[trigger] self.gif_list@[j].gif_link@).len()
                    <= usize::MAX,
        ensures
            r == self.wf(),
    {
        let len = self.gif_list.len();
        if self.total_gifs != len as u64 {
            return false;
        }
        let mut used: u64 = DISCRIMINATOR_LEN + RECORD_FIXED_LEN;
        let mut i: usize = 0;
        while i < len
            invariant
                len == self.gif_list@.len(),
                i <= len,
                used <= ACCOUNT_SPACE,
                used == DISCRIMINATOR_LEN + RECORD_FIXED_LEN + entries_size(
                    self@.entries.take(i as int),
                ),
                forall|j: int|
                    0 <= j < self.gif_list@.len() ==> encode_utf8(
                        #[trigger] self.gif_list@[j].gif_link@,
                    ).len() <= usize::MAX,
            decreases len - i,
        {
            let ghost entries = self@.entries;
            proof {
                assert(entries.take(i + 1).drop_last() =~= entries.take(i as int));
                assert(entries.take(i + 1).last() == entries[i as int]);
            }
            let n = self.gif_list[i].gif_link.as_str().len();
            let room = (ACCOUNT_SPACE - used) as usize;
            if n > room || room - n < ENTRY_FIXED_LEN as usize {
                proof {
                    lemma_entries_size_prefix(entries, i + 1);
                }
                return false;
            }
            used = used + ENTRY_FIXED_LEN + n as u64;
            i = i + 1;
        }
        assert(self@.entries.take(i as int) =~= self@.entries);
        true
    }

    /// Bytes of the account that the registry occupies, its tag included.
    pub fn occupied_bytes(&self) -> (r: u64)
        requires
            self.wf(),
        ensures
            r == space_used(self@),
    {
        let mut used: u64 = DISCRIMINATOR_LEN + RECORD_FIXED_LEN;
        let mut i: usize = 0;
        while i < self.gif_list.len()
            invariant
                self.wf(),
                i <= self.gif_list@.len(),
                used == DISCRIMINATOR_LEN + RECORD_FIXED_LEN + entries_size(
                    self@.entries.take(i as int),
                ),
            decreases self.gif_list@.len() - i,
        {
            let ghost entries = self@.entries;
            proof {
                lemma_entries_size_prefix(entries, i + 1);
                assert(entries.take(i + 1).drop_last() =~= entries.take(i as int));
                assert(entries.take(i + 1).last() == entries[i as int]);
            }
            let n = self.gif_list[i].gif_link.as_str().len();
            used = used + ENTRY_FIXED_LEN + n as u64;
            i = i + 1;
        }
        assert(self@.entries.take(i as int) =~= self@.entries);
        used
    }
}

} // verus!
