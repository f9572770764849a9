use vstd::prelude::*;
use vstd::utf8::encode_utf8;

use crate::state::{
    add_outcome, appended, init_outcome, lemma_entries_size_at_least_len, lemma_entries_size_push, lemma_entries_size_update,
    new_entry, slot_view, vote_outcome, voted, AddGif, BaseAccount, ItemStruct, RegistryError,
    StartStuffOff, ACCOUNT_SPACE, ENTRY_FIXED_LEN,
};

verus! {

/// Creates the registry in an empty slot, paid for by the signing user.
///
/// Fails with `AlreadyInitialized` when the slot already holds a registry,
/// else with `Unauthorized` when the payer did not sign; a failure leaves
/// the slot as it was.
pub fn start_stuff_off(ctx: &mut StartStuffOff) -> (r: Result<(), RegistryError>)
    ensures
        (slot_view(final(ctx).base_account), r) == init_outcome(
            slot_view(old(ctx).base_account),
            old(ctx).user_is_signer,
        ),
        old(ctx).base_account.is_some() ==> final(ctx).base_account == old(ctx).base_account,
        final(ctx).base_account.is_some() && old(ctx).base_account.is_none()
            ==> final(ctx).base_account.unwrap().wf(),
        final(ctx).user == old(ctx).user,
        final(ctx).user_is_signer == old(ctx).user_is_signer,
{
    if ctx.base_account.is_some() {
        return Err(RegistryError::AlreadyInitialized);
    }
    if !ctx.user_is_signer {
        return Err(RegistryError::Unauthorized);
    }
    ctx.base_account = Some(BaseAccount::new());
    Ok(())
}

/// Appends `gif_link` as a new entry authored by the requesting user, with
/// both counters at zero.
///
/// Fails with `Unauthorized` when the user did not sign, else with
/// `CapacityExceeded` when the grown registry would not fit in the account;
/// a failure leaves the registry as it was.
pub fn add_gif(ctx: &mut AddGif, gif_link: String) -> (r: Result<(), RegistryError>)
    requires
        old(ctx).base_account.wf(),
        encode_utf8(gif_link@).len() <= usize::MAX,
    ensures
        (final(ctx).base_account@, r) == add_outcome(
            old(ctx).base_account@,
            gif_link@,
            old(ctx).user,
            old(ctx).user_is_signer,
        ),
        final(ctx).base_account.wf(),
        final(ctx).user == old(ctx).user,
        final(ctx).user_is_signer == old(ctx).user_is_signer,
{
    if !ctx.user_is_signer {
        return Err(RegistryError::Unauthorized);
    }
    let ghost before = ctx.base_account@;
    let ghost link = gif_link@;
    proof {
        lemma_entries_size_push(before.entries, new_entry(link, ctx.user));
        lemma_entries_size_at_least_len(before.entries);
    }
    let used = ctx.base_account.occupied_bytes();
    let link_len = gif_link.as_str().len();
    let room = (ACCOUNT_SPACE - used) as usize;
    if room < ENTRY_FIXED_LEN as usize || link_len > room - ENTRY_FIXED_LEN as usize {
        return Err(RegistryError::CapacityExceeded);
    }
    let item = ItemStruct { gif_link, user_address: ctx.user, upvote: 0, downvote: 0 };
    ctx.base_account.gif_list.push(item);
    ctx.base_account.total_gifs = ctx.base_account.total_gifs + 1;
    proof {
        assert(ctx.base_account@.entries =~= appended(before, link, ctx.user).entries);
    }
    Ok(())
}

/// Adds one upvote to the entry at `index`, whose upvote counter must be
/// below `u64::MAX`.
///
/// Fails with `Unauthorized` when the user did not sign, else with
/// `IndexOutOfRange` when no entry stands at `index`; a failure leaves the
/// registry as it was.
pub fn upvote_gif(ctx: &mut AddGif, index: u64) -> (r: Result<(), RegistryError>)
    requires
        old(ctx).base_account.wf(),
        index < old(ctx).base_account.gif_list@.len() ==> old(
            ctx,
        ).base_account.gif_list@[index as int].upvote < u64::MAX,
    ensures
        (final(ctx).base_account@, r) == vote_outcome(
            old(ctx).base_account@,
            index as nat,
            true,
            old(ctx).user_is_signer,
        ),
        final(ctx).base_account.wf(),
        final(ctx).user == old(ctx).user,
        final(ctx).user_is_signer == old(ctx).user_is_signer,
{
    if !ctx.user_is_signer {
        return Err(RegistryError::Unauthorized);
    }
    let len = ctx.base_account.gif_list.len();
    assert(len == ctx.base_account@.entries.len());
    if index >= ctx.base_account.total_gifs {
        return Err(RegistryError::IndexOutOfRange);
    }
    let ghost before = ctx.base_account@;
    let i = index as usize;
    let n = ctx.base_account.gif_list[i].upvote + 1;
    ctx.base_account.gif_list[i].upvote = n;
    proof {
        let after = voted(before, i as int, true);
        lemma_entries_size_update(before.entries, i as int, after.entries[i as int]);
        assert(ctx.base_account@.entries =~= after.entries);
    }
    Ok(())
}

/// Adds one downvote to the entry at `index`, whose downvote counter must be
/// below `u64::MAX`.
///
/// Fails with `Unauthorized` when the user did not sign, else with
/// `IndexOutOfRange` when no entry stands at `index`; a failure leaves the
/// registry as it was.
pub fn downvote_gif(ctx: &mut AddGif, index: u64) -> (r: Result<(), RegistryError>)
    requires
        old(ctx).base_account.wf(),
        index < old(ctx).base_account.gif_list@.len() ==> old(
            ctx,
        ).base_account.gif_list@[index as int].downvote < u64::MAX,
    ensures
        (final(ctx).base_account@, r) == vote_outcome(
            old(ctx).base_account@,
            index as nat,
            false,
            old(ctx).user_is_signer,
        ),
        final(ctx).base_account.wf(),
        final(ctx).user == old(ctx).user,
        final(ctx).user_is_signer == old(ctx).user_is_signer,
{
    if !ctx.user_is_signer {
        return Err(RegistryError::Unauthorized);
    }
    let len = ctx.base_account.gif_list.len();
    assert(len == ctx.base_account@.entries.len());
    if index >= ctx.base_account.total_gifs {
        return Err(RegistryError::IndexOutOfRange);
    }
    let ghost before = ctx.base_account@;
    let i = index as usize;
    let n = ctx.base_account.gif_list[i].downvote + 1;
    ctx.base_account.gif_list[i].downvote = n;
    proof {
        let after = voted(before, i as int, false);
        lemma_entries_size_update(before.entries, i as int, after.entries[i as int]);
        assert(ctx.base_account@.entries =~= after.entries);
    }
    Ok(())
}

} // verus!
