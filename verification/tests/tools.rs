use rock_paper_scissors::instructions::game::funds::SYSTEM_PROGRAM_ID;
use rock_paper_scissors::instructions::game::reveal_choice::val_to_hash;
use rock_paper_scissors::instructions::settings::initialize_settings::BOOTSTRAP_SIGNER;
use rock_paper_scissors::state::game::GameAuthority;
use rock_paper_scissors::tools::spl::LEGACY_TOKEN_PROGRAM_ID;
use rock_paper_scissors::{
    transfer_lamports, transfer_spl_compatible, vec_to_arr_of_n, Choice, LamportTransfer, Mint,
    Pubkey, TransferLamports,
};

fn key(byte: u8) -> Pubkey {
    Pubkey::new_from_array([byte; 32])
}

#[test]
fn vec_to_arr_of_n_keeps_the_items_in_order() {
    let v = vec![1, 2, 3, 4, 5];
    let a: [u8; 5] = vec_to_arr_of_n(v);
    assert_eq!(a, [1, 2, 3, 4, 5]);
}

#[test]
fn vec_to_arr_of_n_takes_an_empty_vector() {
    let a: [u64; 0] = vec_to_arr_of_n(Vec::new());
    assert_eq!(a.len(), 0);
}

#[test]
fn vec_to_arr_of_n_moves_owned_items() {
    let v = vec![String::from("a"), String::from("b")];
    let a: [String; 2] = vec_to_arr_of_n(v);
    assert_eq!(a, [String::from("a"), String::from("b")]);
}

#[test]
fn val_to_hash_is_the_choice_byte_then_the_salt() {
    let mut salt = [0u8; 32];
    for i in 0..32 {
        salt[i] = (i as u8) + 100;
    }
    let input = val_to_hash(Choice::Scissors, &salt);
    assert_eq!(input.len(), 33);
    assert_eq!(input[0], 2);
    assert_eq!(&input[1..], &salt[..]);
    assert_eq!(val_to_hash(Choice::Rock, &salt)[0], 0);
    assert_eq!(val_to_hash(Choice::Paper, &salt)[0], 1);
}

#[test]
fn legacy_token_program_id_is_the_token_program_of_the_ledger() {
    assert_eq!(LEGACY_TOKEN_PROGRAM_ID, anchor_spl::token::ID.to_bytes());
    assert_ne!(LEGACY_TOKEN_PROGRAM_ID, anchor_spl::token_2022::ID.to_bytes());
}

#[test]
fn system_program_id_is_the_system_program_of_the_ledger() {
    assert_eq!(SYSTEM_PROGRAM_ID, anchor_lang::system_program::ID.to_bytes());
    assert_eq!(BOOTSTRAP_SIGNER, [0u8; 32]);
}

#[test]
fn legacy_program_gets_the_legacy_transfer() {
    let legacy = Pubkey::new_from_array(LEGACY_TOKEN_PROGRAM_ID);
    let mint = Mint { key: key(10), decimals: 6 };
    let transfer = transfer_spl_compatible(&legacy, &key(1), &key(2), &key(3), &mint, 100, None);
    assert_eq!(transfer.token_program, legacy);
    assert_eq!(transfer.from, key(1));
    assert_eq!(transfer.to, key(2));
    assert_eq!(transfer.authority, key(3));
    assert_eq!(transfer.amount, 100);
    assert_eq!(transfer.checked, None);
    assert_eq!(transfer.signer_seeds, None);
}

#[test]
fn any_other_program_gets_the_checked_transfer() {
    let token_2022 = Pubkey::new_from_array(anchor_spl::token_2022::ID.to_bytes());
    let mint = Mint { key: key(10), decimals: 6 };
    let transfer = transfer_spl_compatible(&token_2022, &key(1), &key(2), &key(3), &mint, 100, None);
    assert_eq!(transfer.checked, Some(mint));
    assert_eq!(transfer.amount, 100);
    let mut almost = LEGACY_TOKEN_PROGRAM_ID;
    almost[31] = almost[31].wrapping_add(1);
    let transfer = transfer_spl_compatible(
        &Pubkey::new_from_array(almost),
        &key(1),
        &key(2),
        &key(3),
        &mint,
        0,
        None,
    );
    assert_eq!(transfer.checked, Some(mint));
    assert_eq!(transfer.amount, 0);
}

#[test]
fn transfer_carries_the_signer_seeds_it_is_given() {
    let authority = GameAuthority { first_player: key(1), game_id: String::from("g1"), bump: 3 };
    let mint = Mint { key: key(10), decimals: 0 };
    let transfer = transfer_spl_compatible(
        &key(11),
        &key(1),
        &key(2),
        &key(3),
        &mint,
        u64::MAX,
        Some(authority.clone()),
    );
    assert_eq!(transfer.signer_seeds, Some(authority));
    assert_eq!(transfer.amount, u64::MAX);
}

#[test]
fn transfer_lamports_keeps_accounts_and_amount() {
    let accounts = TransferLamports { from: key(1), to: key(9), system_program: key(0) };
    assert_eq!(
        transfer_lamports(accounts, 5000),
        LamportTransfer { accounts, lamports: 5000 }
    );
}
