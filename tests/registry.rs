use footballgif::state::{ACCOUNT_SPACE, DISCRIMINATOR_LEN, ENTRY_FIXED_LEN, RECORD_FIXED_LEN};
use footballgif::{
    add_gif, downvote_gif, start_stuff_off, upvote_gif, AddGif, BaseAccount, ItemStruct, RegistryError,
    StartStuffOff,
};

const X: [u8; 32] = [1u8; 32];
const Y: [u8; 32] = [2u8; 32];

fn initialized() -> BaseAccount {
    let mut init = StartStuffOff { base_account: None, user: X, user_is_signer: true };
    assert_eq!(start_stuff_off(&mut init), Ok(()));
    init.base_account.unwrap()
}

fn request(base_account: BaseAccount, user: [u8; 32], user_is_signer: bool) -> AddGif {
    AddGif { base_account, user, user_is_signer }
}

fn links(account: &BaseAccount) -> Vec<String> {
    account.gif_list.iter().map(|e| e.gif_link.clone()).collect()
}

#[test]
fn initialize_writes_empty_registry() {
    let account = initialized();
    assert_eq!(account.total_gifs, 0);
    assert!(account.gif_list.is_empty());
    assert_eq!(account.occupied_bytes(), 20);
}

#[test]
fn initialize_twice_fails_and_keeps_state() {
    let mut ctx = StartStuffOff { base_account: None, user: X, user_is_signer: true };
    assert_eq!(start_stuff_off(&mut ctx), Ok(()));
    let mut inner = request(ctx.base_account.take().unwrap(), X, true);
    assert_eq!(add_gif(&mut inner, "http://a.gif".to_string()), Ok(()));
    ctx.base_account = Some(inner.base_account);
    assert_eq!(start_stuff_off(&mut ctx), Err(RegistryError::AlreadyInitialized));
    let account = ctx.base_account.unwrap();
    assert_eq!(account.total_gifs, 1);
    assert_eq!(links(&account), vec!["http://a.gif".to_string()]);
}

#[test]
fn initialize_twice_unsigned_still_already_initialized() {
    let mut ctx = StartStuffOff { base_account: Some(initialized()), user: Y, user_is_signer: false };
    assert_eq!(start_stuff_off(&mut ctx), Err(RegistryError::AlreadyInitialized));
    assert_eq!(ctx.base_account.unwrap().total_gifs, 0);
}

#[test]
fn initialize_without_signature_is_unauthorized() {
    let mut ctx = StartStuffOff { base_account: None, user: X, user_is_signer: false };
    assert_eq!(start_stuff_off(&mut ctx), Err(RegistryError::Unauthorized));
    assert!(ctx.base_account.is_none());
}

#[test]
fn append_records_link_author_and_zero_votes() {
    let mut ctx = request(initialized(), Y, true);
    assert_eq!(add_gif(&mut ctx, "http://a.gif".to_string()), Ok(()));
    let e = &ctx.base_account.gif_list[0];
    assert_eq!(e.gif_link, "http://a.gif");
    assert_eq!(e.user_address, Y);
    assert_eq!(e.upvote, 0);
    assert_eq!(e.downvote, 0);
    assert_eq!(ctx.base_account.total_gifs, 1);
    assert_eq!(ctx.base_account.occupied_bytes(), 20 + 52 + 12);
}

#[test]
fn appends_count_and_keep_order() {
    let mut ctx = request(initialized(), X, true);
    let names = ["one", "two", "three", "four", "five"];
    for (k, name) in names.iter().enumerate() {
        ctx.user = [k as u8; 32];
        assert_eq!(add_gif(&mut ctx, name.to_string()), Ok(()));
    }
    assert_eq!(ctx.base_account.total_gifs, 5);
    assert_eq!(links(&ctx.base_account), names.iter().map(|s| s.to_string()).collect::<Vec<_>>());
    for (k, e) in ctx.base_account.gif_list.iter().enumerate() {
        assert_eq!(e.user_address, [k as u8; 32]);
    }
}

#[test]
fn append_without_signature_is_unauthorized() {
    let mut ctx = request(initialized(), X, true);
    assert_eq!(add_gif(&mut ctx, "http://a.gif".to_string()), Ok(()));
    ctx.user = Y;
    ctx.user_is_signer = false;
    assert_eq!(add_gif(&mut ctx, "http://b.gif".to_string()), Err(RegistryError::Unauthorized));
    assert_eq!(ctx.base_account.total_gifs, 1);
    assert_eq!(links(&ctx.base_account), vec!["http://a.gif".to_string()]);
}

#[test]
fn upvote_and_downvote_touch_one_counter() {
    let mut ctx = request(initialized(), X, true);
    for name in ["a", "b", "c"] {
        assert_eq!(add_gif(&mut ctx, name.to_string()), Ok(()));
    }
    assert_eq!(upvote_gif(&mut ctx, 1), Ok(()));
    assert_eq!(upvote_gif(&mut ctx, 1), Ok(()));
    assert_eq!(downvote_gif(&mut ctx, 2), Ok(()));
    let votes: Vec<(u64, u64)> =
        ctx.base_account.gif_list.iter().map(|e| (e.upvote, e.downvote)).collect();
    assert_eq!(votes, vec![(0, 0), (2, 0), (0, 1)]);
    assert_eq!(ctx.base_account.total_gifs, 3);
    assert_eq!(links(&ctx.base_account), vec!["a".to_string(), "b".to_string(), "c".to_string()]);
}

#[test]
fn vote_out_of_range_fails() {
    let mut ctx = request(initialized(), X, true);
    assert_eq!(upvote_gif(&mut ctx, 0), Err(RegistryError::IndexOutOfRange));
    assert_eq!(add_gif(&mut ctx, "a".to_string()), Ok(()));
    assert_eq!(upvote_gif(&mut ctx, 1), Err(RegistryError::IndexOutOfRange));
    assert_eq!(downvote_gif(&mut ctx, 1), Err(RegistryError::IndexOutOfRange));
    assert_eq!(downvote_gif(&mut ctx, u64::MAX), Err(RegistryError::IndexOutOfRange));
    let e = &ctx.base_account.gif_list[0];
    assert_eq!((e.upvote, e.downvote), (0, 0));
    assert_eq!(ctx.base_account.total_gifs, 1);
}

#[test]
fn vote_without_signature_is_unauthorized() {
    let mut ctx = request(initialized(), X, true);
    assert_eq!(add_gif(&mut ctx, "a".to_string()), Ok(()));
    ctx.user_is_signer = false;
    assert_eq!(upvote_gif(&mut ctx, 0), Err(RegistryError::Unauthorized));
    assert_eq!(downvote_gif(&mut ctx, 0), Err(RegistryError::Unauthorized));
    let e = &ctx.base_account.gif_list[0];
    assert_eq!((e.upvote, e.downvote), (0, 0));
}

#[test]
fn scenario_two_links_three_votes() {
    let mut init = StartStuffOff { base_account: None, user: X, user_is_signer: true };
    assert_eq!(start_stuff_off(&mut init), Ok(()));
    let mut ctx = request(init.base_account.unwrap(), X, true);
    assert_eq!(add_gif(&mut ctx, "http://a.gif".to_string()), Ok(()));
    ctx.user = Y;
    assert_eq!(add_gif(&mut ctx, "http://b.gif".to_string()), Ok(()));
    assert_eq!(upvote_gif(&mut ctx, 0), Ok(()));
    assert_eq!(downvote_gif(&mut ctx, 0), Ok(()));
    assert_eq!(upvote_gif(&mut ctx, 1), Ok(()));
    let a = &ctx.base_account;
    assert_eq!(a.total_gifs, 2);
    assert_eq!(a.gif_list[0].gif_link, "http://a.gif");
    assert_eq!(a.gif_list[0].user_address, X);
    assert_eq!((a.gif_list[0].upvote, a.gif_list[0].downvote), (1, 1));
    assert_eq!(a.gif_list[1].gif_link, "http://b.gif");
    assert_eq!(a.gif_list[1].user_address, Y);
    assert_eq!((a.gif_list[1].upvote, a.gif_list[1].downvote), (1, 0));
}

/// The longest link that fits in a fresh account.
fn largest_link_len() -> usize {
    (ACCOUNT_SPACE - DISCRIMINATOR_LEN - RECORD_FIXED_LEN - ENTRY_FIXED_LEN) as usize
}

#[test]
fn append_filling_account_exactly_succeeds() {
    assert_eq!(largest_link_len(), 8928);
    let mut ctx = request(initialized(), X, true);
    assert_eq!(add_gif(&mut ctx, "a".repeat(largest_link_len())), Ok(()));
    assert_eq!(ctx.base_account.occupied_bytes(), ACCOUNT_SPACE);
    assert_eq!(add_gif(&mut ctx, String::new()), Err(RegistryError::CapacityExceeded));
    assert_eq!(ctx.base_account.total_gifs, 1);
}

#[test]
fn append_beyond_capacity_fails_and_keeps_state() {
    let mut ctx = request(initialized(), X, true);
    assert_eq!(add_gif(&mut ctx, "http://a.gif".to_string()), Ok(()));
    let big = "a".repeat(largest_link_len() - 52 - 12 + 1);
    assert_eq!(add_gif(&mut ctx, big), Err(RegistryError::CapacityExceeded));
    assert_eq!(ctx.base_account.total_gifs, 1);
    assert_eq!(links(&ctx.base_account), vec!["http://a.gif".to_string()]);
    assert_eq!(ctx.base_account.occupied_bytes(), 84);
}

#[test]
fn capacity_counts_utf8_bytes() {
    // 8926 one-byte characters and one two-byte character: 8928 bytes, which fit.
    let mut ctx = request(initialized(), X, true);
    let fits = format!("{}é", "a".repeat(largest_link_len() - 2));
    assert_eq!(add_gif(&mut ctx, fits), Ok(()));
    // One more byte than fits, in fewer characters than the limit.
    let mut ctx = request(initialized(), X, true);
    let too_big = format!("{}é", "a".repeat(largest_link_len() - 1));
    assert_eq!(too_big.chars().count(), largest_link_len());
    assert_eq!(add_gif(&mut ctx, too_big), Err(RegistryError::CapacityExceeded));
    assert_eq!(ctx.base_account.total_gifs, 0);
}

#[test]
fn many_small_appends_until_full() {
    let mut ctx = request(initialized(), X, true);
    let mut ok: u64 = 0;
    while add_gif(&mut ctx, "http://x.gif".to_string()).is_ok() {
        ok += 1;
    }
    // Each entry takes 52 + 12 bytes of the 8980 left after the header.
    assert_eq!(ok, 8980 / 64);
    assert_eq!(ctx.base_account.total_gifs, ok);
    assert_eq!(ctx.base_account.gif_list.len() as u64, ok);
}

#[test]
fn well_formed_registry_is_recognised() {
    let mut ctx = request(initialized(), X, true);
    assert!(ctx.base_account.is_well_formed());
    assert_eq!(add_gif(&mut ctx, "http://a.gif".to_string()), Ok(()));
    assert!(ctx.base_account.is_well_formed());
}

#[test]
fn count_mismatch_is_not_well_formed() {
    let account = BaseAccount { total_gifs: 1, gif_list: Vec::new() };
    assert!(!account.is_well_formed());
}

#[test]
fn oversized_registry_is_not_well_formed() {
    let item = |n: usize| ItemStruct {
        gif_link: "a".repeat(n),
        user_address: X,
        upvote: 0,
        downvote: 0,
    };
    let exact = BaseAccount { total_gifs: 1, gif_list: vec![item(largest_link_len())] };
    assert!(exact.is_well_formed());
    let over = BaseAccount { total_gifs: 1, gif_list: vec![item(largest_link_len() + 1)] };
    assert!(!over.is_well_formed());
}
