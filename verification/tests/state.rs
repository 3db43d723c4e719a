use rock_paper_scissors::constants::{FIRST_PLAYER, GAME, GAME_ESCROW, SECOND_PLAYER, SETTINGS};
use rock_paper_scissors::pubkey::bytes_equal;
use rock_paper_scissors::state::game::GameAuthority;
use rock_paper_scissors::{
    Choice, Game, GameState, Player, Pubkey, RockPaperScissorsError, Settings,
};

fn key(byte: u8) -> Pubkey {
    Pubkey::new_from_array([byte; 32])
}

fn settings(time_for_penalization: i64) -> Settings {
    Settings::new(255, time_for_penalization, 3600, key(9), 5000)
}

fn created_game() -> Game {
    Game::new(254, String::from("g1"), key(10), key(11), 100, key(1), [21; 32], key(3), 1000)
}

fn started_game() -> Game {
    let mut game = created_game();
    game.join_game(key(2), [22; 32], key(4));
    game
}

fn game_with_choices(first: Choice, second: Choice) -> Game {
    let mut game = started_game();
    game.set_player_choice(Player::First, first, 1100);
    game.set_player_choice(Player::Second, second, 1200);
    game
}

#[test]
fn constants_spell_their_tags() {
    assert_eq!(&SETTINGS[..], b"settings");
    assert_eq!(&GAME[..], b"game");
    assert_eq!(&GAME_ESCROW[..], b"game_escrow");
    assert_eq!(&FIRST_PLAYER[..], b"first_player");
    assert_eq!(&SECOND_PLAYER[..], b"second_player");
}

#[test]
fn pubkey_keeps_its_bytes() {
    let mut bytes = [0u8; 32];
    bytes[0] = 1;
    bytes[31] = 200;
    let address = Pubkey::new_from_array(bytes);
    assert_eq!(address.to_bytes(), bytes);
    assert_eq!(address.bytes, bytes);
}

#[test]
fn pubkeys_are_equal_when_their_bytes_are() {
    let mut bytes = [5u8; 32];
    assert_eq!(Pubkey::new_from_array(bytes), key(5));
    bytes[31] = 6;
    assert_ne!(Pubkey::new_from_array(bytes), key(5));
    bytes[31] = 5;
    bytes[0] = 6;
    assert_ne!(Pubkey::new_from_array(bytes), key(5));
}

#[test]
fn bytes_equal_compares_every_byte() {
    let a = [3u8; 32];
    let mut b = [3u8; 32];
    assert!(bytes_equal(&a, &b));
    b[17] = 4;
    assert!(!bytes_equal(&a, &b));
    b[17] = 3;
    b[31] = 0;
    assert!(!bytes_equal(&a, &b));
}

#[test]
fn settings_size_is_the_sum_of_its_fields() {
    assert_eq!(Settings::size(), 65);
}

#[test]
fn settings_new_keeps_its_arguments() {
    let made = Settings::new(7, 60, 3600, key(9), 5000);
    assert_eq!(made.bump, 7);
    assert_eq!(made.time_for_penalization, 60);
    assert_eq!(made.time_for_stale, 3600);
    assert_eq!(made.treasury, key(9));
    assert_eq!(made.player_fee_lamports, 5000);
}

#[test]
fn game_size_is_the_sum_of_its_fields() {
    assert_eq!(Game::size(), 361);
}

#[test]
fn new_game_is_created_and_empty() {
    let game = created_game();
    assert_eq!(game.bump, 254);
    assert_eq!(game.game_id, "g1");
    assert_eq!(game.mint, key(10));
    assert_eq!(game.token_program, key(11));
    assert_eq!(game.amount_to_match, 100);
    assert_eq!(game.first_player, key(1));
    assert_eq!(game.first_player_hash, [21; 32]);
    assert_eq!(game.first_player_escrow, key(3));
    assert_eq!(game.first_player_choice, None);
    assert_eq!(game.first_player_revealed_at, None);
    assert_eq!(game.second_player, None);
    assert_eq!(game.second_player_hash, None);
    assert_eq!(game.second_player_escrow, None);
    assert_eq!(game.second_player_choice, None);
    assert_eq!(game.second_player_revealed_at, None);
    assert_eq!(game.amount_won, None);
    assert_eq!(game.drawn_at, None);
    assert_eq!(game.state, GameState::Created);
    assert_eq!(game.created_at, 1000);
    assert!(game.is_created());
    assert!(!game.is_started());
}

#[test]
fn join_game_records_the_second_player_and_starts() {
    let before = created_game();
    let mut game = created_game();
    game.join_game(key(2), [22; 32], key(4));
    assert_eq!(game.second_player, Some(key(2)));
    assert_eq!(game.second_player_hash, Some([22; 32]));
    assert_eq!(game.second_player_escrow, Some(key(4)));
    assert_eq!(game.state, GameState::Started);
    assert!(game.is_started());
    assert!(!game.is_created());
    assert_eq!(game.amount_to_match, before.amount_to_match);
    assert_eq!(game.first_player, before.first_player);
    assert_eq!(game.first_player_hash, before.first_player_hash);
    assert_eq!(game.first_player_choice, None);
    assert_eq!(game.second_player_choice, None);
}

#[test]
fn set_player_choice_sets_choice_and_time_together() {
    let mut game = started_game();
    game.set_player_choice(Player::First, Choice::Paper, 1234);
    assert_eq!(game.first_player_choice, Some(Choice::Paper));
    assert_eq!(game.first_player_revealed_at, Some(1234));
    assert_eq!(game.second_player_choice, None);
    assert_eq!(game.second_player_revealed_at, None);
    assert_eq!(game.state, GameState::Started);
    game.set_player_choice(Player::Second, Choice::Scissors, 1300);
    assert_eq!(game.second_player_choice, Some(Choice::Scissors));
    assert_eq!(game.second_player_revealed_at, Some(1300));
    assert_eq!(game.first_player_choice, Some(Choice::Paper));
    assert_eq!(game.first_player_revealed_at, Some(1234));
    assert_eq!(game.state, GameState::Started);
}

#[test]
fn set_claimed_records_a_winner() {
    let mut game = started_game();
    game.set_claimed(&Some(Player::First), 200, 5000);
    assert_eq!(game.state, GameState::FirstPlayerWon);
    assert_eq!(game.amount_won, Some(200));
    assert_eq!(game.drawn_at, Some(5000));
    let mut game = started_game();
    game.set_claimed(&Some(Player::Second), 200, 5001);
    assert_eq!(game.state, GameState::SecondPlayerWon);
    assert_eq!(game.amount_won, Some(200));
    assert_eq!(game.drawn_at, Some(5001));
}

#[test]
fn set_claimed_records_a_draw_without_an_amount() {
    let mut game = started_game();
    game.set_claimed(&None, 0, 5000);
    assert_eq!(game.state, GameState::Draw);
    assert_eq!(game.amount_won, None);
    assert_eq!(game.drawn_at, Some(5000));
}

#[test]
fn is_player_knows_both_players_and_nobody_else() {
    let game = started_game();
    assert!(game.is_player(&key(1)));
    assert!(game.is_player(&key(2)));
    assert!(!game.is_player(&key(3)));
    let game = created_game();
    assert!(game.is_player(&key(1)));
    assert!(!game.is_player(&key(2)));
}

#[test]
fn to_player_names_the_side_or_refuses() {
    let game = started_game();
    assert_eq!(game.to_player(&key(1)), Ok(Player::First));
    assert_eq!(game.to_player(&key(2)), Ok(Player::Second));
    assert_eq!(game.to_player(&key(3)), Err(RockPaperScissorsError::InvalidPlayer));
    assert_eq!(created_game().to_player(&key(2)), Err(RockPaperScissorsError::InvalidPlayer));
}

#[test]
fn from_game_names_the_side_or_refuses() {
    let game = started_game();
    assert_eq!(Player::from_game(&game, &key(1)), Ok(Player::First));
    assert_eq!(Player::from_game(&game, &key(2)), Ok(Player::Second));
    assert_eq!(
        Player::from_game(&game, &key(3)),
        Err(RockPaperScissorsError::AccountIsNotAPlayerInTheGame)
    );
    assert_eq!(
        Player::from_game(&created_game(), &key(2)),
        Err(RockPaperScissorsError::AccountIsNotAPlayerInTheGame)
    );
}

#[test]
fn choice_bytes_are_zero_one_two() {
    assert_eq!(Choice::Rock.to_byte(), 0);
    assert_eq!(Choice::Paper.to_byte(), 1);
    assert_eq!(Choice::Scissors.to_byte(), 2);
}

#[test]
fn compare_decides_all_nine_pairs() {
    assert_eq!(Choice::compare(Choice::Rock, Choice::Rock), None);
    assert_eq!(Choice::compare(Choice::Rock, Choice::Paper), Some(Player::Second));
    assert_eq!(Choice::compare(Choice::Rock, Choice::Scissors), Some(Player::First));
    assert_eq!(Choice::compare(Choice::Paper, Choice::Rock), Some(Player::First));
    assert_eq!(Choice::compare(Choice::Paper, Choice::Paper), None);
    assert_eq!(Choice::compare(Choice::Paper, Choice::Scissors), Some(Player::Second));
    assert_eq!(Choice::compare(Choice::Scissors, Choice::Rock), Some(Player::Second));
    assert_eq!(Choice::compare(Choice::Scissors, Choice::Paper), Some(Player::First));
    assert_eq!(Choice::compare(Choice::Scissors, Choice::Scissors), None);
}

#[test]
fn get_winner_decides_all_nine_pairs() {
    let table = [
        (Choice::Rock, Choice::Rock, None),
        (Choice::Rock, Choice::Paper, Some(Player::Second)),
        (Choice::Rock, Choice::Scissors, Some(Player::First)),
        (Choice::Paper, Choice::Rock, Some(Player::First)),
        (Choice::Paper, Choice::Paper, None),
        (Choice::Paper, Choice::Scissors, Some(Player::Second)),
        (Choice::Scissors, Choice::Rock, Some(Player::Second)),
        (Choice::Scissors, Choice::Paper, Some(Player::First)),
        (Choice::Scissors, Choice::Scissors, None),
    ];
    for (first, second, expected) in table {
        let game = game_with_choices(first, second);
        assert_eq!(game.get_winner(1300, &settings(60)), Ok(expected));
        assert_eq!(game.get_winner(i64::MAX, &settings(60)), Ok(expected));
        assert_eq!(game.get_winner(i64::MIN, &settings(-60)), Ok(expected));
    }
}

#[test]
fn get_winner_refuses_a_game_that_is_not_started() {
    assert_eq!(
        created_game().get_winner(2000, &settings(60)),
        Err(RockPaperScissorsError::InvalidGameState)
    );
    let mut over = game_with_choices(Choice::Rock, Choice::Paper);
    over.set_claimed(&Some(Player::Second), 200, 2000);
    assert_eq!(over.get_winner(3000, &settings(60)), Err(RockPaperScissorsError::InvalidGameState));
    let mut drawn = game_with_choices(Choice::Rock, Choice::Rock);
    drawn.set_claimed(&None, 0, 2000);
    assert_eq!(drawn.get_winner(3000, &settings(60)), Err(RockPaperScissorsError::InvalidGameState));
}

#[test]
fn get_winner_needs_both_choices_without_a_forfeit() {
    let game = started_game();
    assert_eq!(game.get_winner(i64::MAX, &settings(60)), Err(RockPaperScissorsError::InvalidGameState));
    let mut game = started_game();
    game.set_player_choice(Player::First, Choice::Rock, 1100);
    assert_eq!(game.get_winner(1159, &settings(60)), Err(RockPaperScissorsError::InvalidGameState));
}

#[test]
fn forfeit_starts_at_the_end_of_the_window() {
    let mut game = started_game();
    game.set_player_choice(Player::First, Choice::Rock, 1100);
    assert!(!game.did_player_forfeit(Player::Second, 1159, 60));
    assert!(game.did_player_forfeit(Player::Second, 1160, 60));
    assert!(game.did_player_forfeit(Player::Second, 1161, 60));
    assert!(!game.did_player_forfeit(Player::First, 1160, 60));
    assert!(!game.did_player_forfeit(Player::First, i64::MAX, 60));
}

#[test]
fn nobody_forfeits_before_anybody_reveals() {
    let game = started_game();
    assert!(!game.did_player_forfeit(Player::First, i64::MAX, 0));
    assert!(!game.did_player_forfeit(Player::Second, i64::MAX, 0));
}

#[test]
fn nobody_forfeits_after_both_reveal() {
    let game = game_with_choices(Choice::Rock, Choice::Paper);
    assert!(!game.did_player_forfeit(Player::First, i64::MAX, i64::MIN));
    assert!(!game.did_player_forfeit(Player::Second, i64::MAX, i64::MIN));
}

#[test]
fn forfeit_window_is_added_without_wrapping() {
    let mut game = started_game();
    game.set_player_choice(Player::Second, Choice::Rock, i64::MAX);
    assert!(!game.did_player_forfeit(Player::First, i64::MAX, 1));
    assert!(!game.did_player_forfeit(Player::First, i64::MAX, i64::MAX));
    assert!(game.did_player_forfeit(Player::First, i64::MAX, 0));
    let mut game = started_game();
    game.set_player_choice(Player::Second, Choice::Rock, i64::MIN);
    assert!(game.did_player_forfeit(Player::First, i64::MIN, -1));
    assert!(game.did_player_forfeit(Player::First, i64::MIN, i64::MIN));
}

#[test]
fn forfeit_goes_before_the_throws() {
    let mut game = started_game();
    game.set_player_choice(Player::Second, Choice::Scissors, 1100);
    assert_eq!(game.get_winner(1160, &settings(60)), Ok(Some(Player::Second)));
    let mut game = started_game();
    game.set_player_choice(Player::First, Choice::Scissors, 1100);
    assert_eq!(game.get_winner(1160, &settings(60)), Ok(Some(Player::First)));
}

#[test]
fn game_is_stale_from_the_end_of_the_window() {
    let game = started_game();
    assert!(!game.is_stale(4599, 3600));
    assert!(game.is_stale(4600, 3600));
    assert!(game.is_stale(4601, 3600));
}

#[test]
fn only_a_started_game_without_reveals_is_stale() {
    assert!(!created_game().is_stale(i64::MAX, 0));
    let mut game = started_game();
    game.set_player_choice(Player::First, Choice::Rock, 1100);
    assert!(!game.is_stale(i64::MAX, 0));
    let mut game = started_game();
    game.set_player_choice(Player::Second, Choice::Rock, 1100);
    assert!(!game.is_stale(i64::MAX, 0));
    let mut game = started_game();
    game.set_claimed(&None, 0, 2000);
    assert!(!game.is_stale(i64::MAX, 0));
}

#[test]
fn staleness_window_is_added_without_wrapping() {
    let mut game = started_game();
    game.created_at = i64::MAX;
    assert!(!game.is_stale(i64::MAX, 1));
    assert!(game.is_stale(i64::MAX, 0));
    game.created_at = i64::MIN;
    assert!(game.is_stale(i64::MIN, -1));
}

#[test]
fn second_side_is_there_only_in_play() {
    assert_eq!(created_game().second_side(), None);
    assert_eq!(started_game().second_side(), Some((key(2), key(4))));
    let mut game = started_game();
    game.second_player_escrow = None;
    assert_eq!(game.second_side(), None);
    let mut game = started_game();
    game.set_claimed(&None, 0, 2000);
    assert_eq!(game.second_side(), None);
}

#[test]
fn authority_seeds_are_tag_owner_identifier_bump() {
    let authority = started_game().authority();
    assert_eq!(
        authority,
        GameAuthority { first_player: key(1), game_id: String::from("g1"), bump: 254 }
    );
    let seeds = authority.seeds();
    assert_eq!(seeds.len(), 4);
    assert_eq!(seeds[0], b"game".to_vec());
    assert_eq!(seeds[1], vec![1u8; 32]);
    assert_eq!(seeds[2], b"g1".to_vec());
    assert_eq!(seeds[3], vec![254u8]);
}

#[test]
fn authority_seeds_take_the_identifier_as_utf8() {
    let authority =
        GameAuthority { first_player: key(8), game_id: String::from("é1"), bump: 0 };
    let seeds = authority.seeds();
    assert_eq!(seeds[2], vec![0xc3, 0xa9, 0x31]);
    assert_eq!(seeds[3], vec![0u8]);
}

#[test]
fn error_messages_read_as_documented() {
    assert_eq!(RockPaperScissorsError::AccountIsNotAPlayerInTheGame.message(), "Account is not a player in the game");
    assert_eq!(RockPaperScissorsError::InvalidGameState.message(), "Invalid game state");
    assert_eq!(RockPaperScissorsError::InvalidPlayer.message(), "Invalid player");
    assert_eq!(RockPaperScissorsError::InvalidHash.message(), "Invalid hash");
    assert_eq!(RockPaperScissorsError::BothPlayersCantBeTheSame.message(), "Both players can't be the same");
    assert_eq!(RockPaperScissorsError::GameIsNotStale.message(), "Game is not stale");
    assert_eq!(RockPaperScissorsError::PlayerAlreadyRevealed.message(), "Player already revealed");
    assert_eq!(RockPaperScissorsError::NumericOverflow.message(), "Numeric overflow");
}
