use anchor_lang::prelude::Pubkey;
use gif_registry::ops::{
    add_gif, start_stuff_off, tip_sol, vote, vote_efficient, RegistryError, TIP_LAMPORTS,
};
use gif_registry::state::{BaseAccount, ItemStruct, REGISTRY_SPACE};

fn pk(tag: u8) -> Pubkey {
    Pubkey::new_from_array([tag; 32])
}

fn fresh_registry() -> BaseAccount {
    let mut slot: Option<BaseAccount> = None;
    start_stuff_off(&mut slot).unwrap();
    slot.unwrap()
}

#[test]
fn initialize_zeroes_everything() {
    let mut slot: Option<BaseAccount> = None;
    assert_eq!(start_stuff_off(&mut slot), Ok(()));
    let acc = slot.as_ref().unwrap();
    assert_eq!(acc.total_gifs, 0);
    assert_eq!(acc.total_votes, 0);
    assert_eq!(acc.gif_list.len(), 0);
}

#[test]
fn reinitialization_rejected_and_state_untouched() {
    let mut slot: Option<BaseAccount> = None;
    assert_eq!(start_stuff_off(&mut slot), Ok(()));
    add_gif(slot.as_mut().unwrap(), String::from("https://a.example/1"), pk(1)).unwrap();
    let r = start_stuff_off(&mut slot);
    assert_eq!(r, Err(RegistryError::AlreadyInitialized));
    let acc = slot.as_ref().unwrap();
    assert_eq!(acc.total_gifs, 1);
    assert_eq!(acc.gif_list.len(), 1);
    assert_eq!(acc.gif_list[0].gif_link, "https://a.example/1");
}

#[test]
fn append_grows_by_one_and_matches_arguments() {
    let mut acc = fresh_registry();
    let user = pk(7);
    assert_eq!(add_gif(&mut acc, String::from("https://a.example/g"), user), Ok(()));
    assert_eq!(acc.total_gifs, 1);
    assert_eq!(acc.gif_list.len(), 1);
    assert_eq!(acc.gif_list[0].gif_link, "https://a.example/g");
    assert_eq!(acc.gif_list[0].user_address, user);
    assert_eq!(acc.gif_list[0].votes, 0);
    assert_eq!(acc.total_votes, 0);
}

#[test]
fn duplicate_links_are_independent_entries() {
    let mut acc = fresh_registry();
    add_gif(&mut acc, String::from("same"), pk(1)).unwrap();
    add_gif(&mut acc, String::from("same"), pk(2)).unwrap();
    assert_eq!(acc.total_gifs, 2);
    assert_eq!(acc.gif_list.len(), 2);
    assert_eq!(acc.gif_list[0].user_address, pk(1));
    assert_eq!(acc.gif_list[1].user_address, pk(2));
}

#[test]
fn vote_credits_every_matching_entry_once() {
    let mut acc = fresh_registry();
    add_gif(&mut acc, String::from("dup"), pk(1)).unwrap();
    add_gif(&mut acc, String::from("other"), pk(2)).unwrap();
    add_gif(&mut acc, String::from("dup"), pk(3)).unwrap();
    assert_eq!(vote(&mut acc, String::from("dup")), Ok(()));
    assert_eq!(acc.total_votes, 1);
    assert_eq!(acc.gif_list[0].votes, 1);
    assert_eq!(acc.gif_list[1].votes, 0);
    assert_eq!(acc.gif_list[2].votes, 1);
}

#[test]
fn vote_with_no_match_still_counts() {
    let mut acc = fresh_registry();
    add_gif(&mut acc, String::from("a"), pk(1)).unwrap();
    assert_eq!(vote(&mut acc, String::from("missing")), Ok(()));
    assert_eq!(acc.total_votes, 1);
    assert_eq!(acc.gif_list[0].votes, 0);
    assert_eq!(acc.total_gifs, 1);
}

#[test]
fn vote_efficient_moves_only_the_call_counter() {
    let mut acc = fresh_registry();
    add_gif(&mut acc, String::from("a"), pk(1)).unwrap();
    let snapshot = ItemStruct { gif_link: String::from("a"), user_address: pk(1), votes: 0 };
    assert_eq!(vote_efficient(&mut acc, snapshot), Ok(()));
    assert_eq!(acc.total_votes, 1);
    assert_eq!(acc.gif_list[0].votes, 0);
}

#[test]
fn counters_never_decrease_across_operations() {
    let mut acc = fresh_registry();
    let mut last_gifs = acc.total_gifs;
    let mut last_votes = acc.total_votes;
    add_gif(&mut acc, String::from("x"), pk(1)).unwrap();
    assert!(acc.total_gifs >= last_gifs && acc.total_votes >= last_votes);
    last_gifs = acc.total_gifs;
    last_votes = acc.total_votes;
    vote(&mut acc, String::from("x")).unwrap();
    assert!(acc.total_gifs >= last_gifs && acc.total_votes >= last_votes);
    last_gifs = acc.total_gifs;
    last_votes = acc.total_votes;
    let snapshot = ItemStruct { gif_link: String::from("x"), user_address: pk(1), votes: 1 };
    vote_efficient(&mut acc, snapshot).unwrap();
    assert!(acc.total_gifs >= last_gifs && acc.total_votes >= last_votes);
    let huge = "y".repeat(REGISTRY_SPACE as usize + 1);
    last_gifs = acc.total_gifs;
    last_votes = acc.total_votes;
    assert!(add_gif(&mut acc, huge, pk(2)).is_err());
    assert!(acc.total_gifs >= last_gifs && acc.total_votes >= last_votes);
}

#[test]
fn serialized_size_counts_header_and_entries() {
    let mut acc = fresh_registry();
    assert_eq!(acc.serialized_size(), 20);
    add_gif(&mut acc, String::from("ab"), pk(1)).unwrap();
    assert_eq!(acc.serialized_size(), 20 + 44 + 2);
    add_gif(&mut acc, String::new(), pk(2)).unwrap();
    assert_eq!(acc.serialized_size(), 20 + 44 + 2 + 44);
}

#[test]
fn serialized_size_counts_utf8_bytes_not_chars() {
    let mut acc = fresh_registry();
    let link = String::from("h\u{e9}llo");
    assert_eq!(link.chars().count(), 5);
    assert_eq!(link.len(), 6);
    add_gif(&mut acc, link, pk(1)).unwrap();
    assert_eq!(acc.serialized_size(), 20 + 44 + 6);
}

#[test]
fn capacity_boundary_fails_exactly_past_the_budget() {
    let mut acc = fresh_registry();
    // each one-byte link costs 45 bytes: 20 + 199 * 45 = 8975 <= 9000,
    // while a 200th entry would need 9020 > 9000.
    for _ in 0..199 {
        assert_eq!(add_gif(&mut acc, String::from("x"), pk(1)), Ok(()));
    }
    assert_eq!(acc.total_gifs, 199);
    assert_eq!(acc.serialized_size(), 8975);
    let r = add_gif(&mut acc, String::from("x"), pk(1));
    assert_eq!(r, Err(RegistryError::CapacityExceeded));
    assert_eq!(acc.total_gifs, 199);
    assert_eq!(acc.gif_list.len(), 199);
    assert_eq!(acc.serialized_size(), 8975);
}

#[test]
fn oversized_link_rejected_even_on_empty_registry() {
    let mut acc = fresh_registry();
    let huge = "a".repeat(9000);
    let r = add_gif(&mut acc, huge, pk(1));
    assert_eq!(r, Err(RegistryError::CapacityExceeded));
    assert_eq!(acc.total_gifs, 0);
    assert_eq!(acc.gif_list.len(), 0);
}

#[test]
fn well_formedness_detects_corrupted_records() {
    let acc = fresh_registry();
    assert!(acc.is_well_formed());
    let miscounted = BaseAccount { total_gifs: 5, total_votes: 0, gif_list: Vec::new() };
    assert!(!miscounted.is_well_formed());
    let overtallied = BaseAccount {
        total_gifs: 1,
        total_votes: 0,
        gif_list: vec![ItemStruct { gif_link: String::from("a"), user_address: pk(1), votes: 3 }],
    };
    assert!(!overtallied.is_well_formed());
}

#[test]
fn tip_moves_exactly_the_fixed_amount() {
    assert_eq!(TIP_LAMPORTS, 100000);
    assert_eq!(tip_sol(100000, 5), Ok((0, 100005)));
    assert_eq!(tip_sol(250000, 0), Ok((150000, 100000)));
}

#[test]
fn tip_fails_atomically_on_insufficient_balance() {
    assert_eq!(tip_sol(99999, 5), Err(RegistryError::InsufficientBalance));
    assert_eq!(tip_sol(0, 0), Err(RegistryError::InsufficientBalance));
}

#[test]
fn tip_fails_when_destination_would_overflow() {
    assert_eq!(tip_sol(100000, u64::MAX), Err(RegistryError::TransferFailed));
    assert_eq!(tip_sol(100000, u64::MAX - 100000), Ok((0, u64::MAX)));
}
