//! What holds of the game whatever is played: the laws of the protocol,
//! each proved from the definitions of the instructions.

use vstd::prelude::*;
use crate::error::RockPaperScissorsError;
use crate::instructions::game::cancel_game::CancelGame;
use crate::instructions::game::funds::{Deposit, Payout};
use crate::instructions::game::join_game::JoinGame;
use crate::instructions::game::reveal_choice::{commitment_input, RevealChoice};
use crate::instructions::game::settle_game::SettleGame;
use crate::instructions::game::unwind_game::UnwindGame;
use crate::state::game::{Choice, Game, GameState, Player};
use crate::tools::hash::sha256;

verus! {

/// A player of a started game who has not revealed yet opens its commitment
/// with exactly the choice and salt whose hash the commitment is: the
/// reveal then records the choice, and with any other choice or salt it is
/// refused as an invalid hash.
pub proof fn law_reveal_opens_the_commitment(
    ctx: RevealChoice,
    player: Player,
    choice: Choice,
    salt: Seq<u8>,
    now: i64,
)
    requires
        ctx.game.state == GameState::Started,
        Player::lookup(ctx.game, ctx.player) == Some(player),
        ctx.game.choice_of(player) is None,
    ensures
        ({
            let created_hash = sha256(commitment_input(choice, salt));
            let outcome = ctx.revealed(choice, created_hash, now);
            let matches = ctx.game.commitment_of(player) matches Some(stored_hash) && stored_hash@
                == created_hash;
            &&& outcome is Ok <==> matches
            &&& matches ==> outcome == Ok::<Game, RockPaperScissorsError>(
                ctx.game.revealed(player, choice, now),
            )
            &&& !matches ==> outcome == Err::<Game, RockPaperScissorsError>(
                RockPaperScissorsError::InvalidHash,
            )
        }),
{
}

/// A player reveals once: when a reveal has been recorded, a further reveal
/// by the same player is refused as already revealed, whatever choice and
/// hash it brings and whenever it comes.
pub proof fn law_reveal_once(
    ctx: RevealChoice,
    choice: Choice,
    created_hash: Seq<u8>,
    now: i64,
    again: RevealChoice,
    other_choice: Choice,
    other_hash: Seq<u8>,
    later: i64,
)
    requires
        ctx.revealed(choice, created_hash, now) is Ok,
        again.game == ctx.revealed(choice, created_hash, now)->Ok_0,
        again.player == ctx.player,
    ensures
        again.revealed(other_choice, other_hash, later) == Err::<Game, RockPaperScissorsError>(
            RockPaperScissorsError::PlayerAlreadyRevealed,
        ),
{
}

/// A game is settled once: a settled game is over, both its escrows are
/// closed by the payout, and settling it again is refused as an invalid
/// game state, whenever and with whatever accounts it is tried.
pub proof fn law_settled_once(ctx: SettleGame, now: i64, again: SettleGame, later: i64)
    requires
        ctx.settled(now) is Ok,
        again.game == ctx.settled(now)->Ok_0.0,
    ensures
        again.game.state.is_terminal(),
        again.settled(later) == Err::<(Game, Payout), RockPaperScissorsError>(
            RockPaperScissorsError::InvalidGameState,
        ),
        ctx.settled(now)->Ok_0.1.closes(ctx.game.first_player_escrow),
        ctx.settled(now)->Ok_0.1.closes(ctx.game.second_player_escrow->0),
{
}

/// Rock beats scissors, paper beats rock, scissors beat paper, and equal
/// throws are a draw: this decides every pair of throws.
pub proof fn law_throws(first: Choice, second: Choice)
    ensures
        first == second <==> Choice::winner(first, second) is None,
        (first == Choice::Rock && second == Choice::Scissors) || (first == Choice::Paper && second
            == Choice::Rock) || (first == Choice::Scissors && second == Choice::Paper)
            <==> Choice::winner(first, second) == Some(Player::First),
        (second == Choice::Rock && first == Choice::Scissors) || (second == Choice::Paper && first
            == Choice::Rock) || (second == Choice::Scissors && first == Choice::Paper)
            <==> Choice::winner(first, second) == Some(Player::Second),
{
}

/// Once both players of a started game have revealed, the throws alone
/// decide it, at any time and with any penalization window.
pub proof fn law_revealed_game_is_decided_by_throws(
    game: Game,
    first: Choice,
    second: Choice,
    now: int,
    time_for_penalization: int,
)
    requires
        game.state == GameState::Started,
        game.first_player_choice == Some(first),
        game.second_player_choice == Some(second),
        game.first_player_revealed_at is Some,
        game.second_player_revealed_at is Some,
    ensures
        game.winner(now, time_for_penalization) == Ok::<Option<Player>, RockPaperScissorsError>(
            Choice::winner(first, second),
        ),
{
}

/// A forfeit comes before the throws: where one player of a started game
/// has revealed and the other has not, the one who has wins from the end of
/// the penalization window on, whatever the other would have thrown.
pub proof fn law_forfeit_comes_first(
    game: Game,
    revealer: Player,
    now: int,
    time_for_penalization: int,
)
    requires
        game.state == GameState::Started,
        game.revealed_at(revealer) matches Some(revealed_at) && revealed_at
            + time_for_penalization <= now,
        game.revealed_at(revealer.adversary()) is None,
    ensures
        game.winner(now, time_for_penalization) == Ok::<Option<Player>, RockPaperScissorsError>(
            Some(revealer),
        ),
{
}

/// Settling awards a forfeited game to the player who revealed, and pays
/// that player both stakes.
pub proof fn law_settle_awards_the_forfeit(ctx: SettleGame, revealer: Player, now: i64)
    requires
        ctx.game.in_play(),
        ctx.game.revealed_at(revealer) matches Some(revealed_at) && revealed_at
            + ctx.settings.time_for_penalization <= now,
        ctx.game.revealed_at(revealer.adversary()) is None,
        2 * ctx.game.amount_to_match <= u64::MAX,
    ensures
        ctx.settled(now) matches Ok((game, payout)) && game.state == GameState::ended(
            Some(revealer),
        ) && payout == ctx.payout(Some(revealer)),
{
    law_forfeit_comes_first(
        ctx.game,
        revealer,
        now as int,
        ctx.settings.time_for_penalization as int,
    );
}

/// A player who has revealed never forfeits, at any time and with any
/// penalization window: where the game goes to its adversary, the
/// adversary's throw has beaten the player's.
pub proof fn law_revealed_never_forfeits(
    game: Game,
    player: Player,
    now: int,
    time_for_penalization: int,
)
    requires
        game.revealed_at(player) is Some,
    ensures
        !game.forfeits(player, now, time_for_penalization),
        game.winner(now, time_for_penalization) == Ok::<Option<Player>, RockPaperScissorsError>(
            Some(player.adversary()),
        ) ==> game.choice_of(player) is Some && game.choice_of(player.adversary()) is Some
            && game.choice_of(player.adversary())->0.beats(game.choice_of(player)->0),
{
}

/// What a settlement moves. Each escrow is named once as the source of a
/// transfer of the stake. With a winner, both transfers go to the winner's
/// account, which so receives twice the stake, and the loser's account
/// receives nothing; the game records twice the stake as won. In a draw
/// each player's account receives the stake. The two players' accounts are
/// taken to be different accounts.
pub proof fn law_settlement_amounts(ctx: SettleGame, now: i64)
    requires
        ctx.settled(now) is Ok,
        ctx.first_player_token_account != ctx.second_player_token_account,
    ensures
        ({
            let (game, payout) = ctx.settled(now)->Ok_0;
            let stake = ctx.game.amount_to_match as int;
            let first_account = ctx.first_player_token_account;
            let second_account = ctx.second_player_token_account;
            &&& game.state.is_terminal()
            &&& payout.first_transfer.amount == stake
            &&& payout.second_transfer.amount == stake
            &&& payout.first_transfer.from == ctx.game.first_player_escrow
                && payout.second_transfer.from == ctx.game.second_player_escrow->0
                || payout.first_transfer.from == ctx.game.second_player_escrow->0
                && payout.second_transfer.from == ctx.game.first_player_escrow
            &&& game.state == GameState::FirstPlayerWon ==> payout.credited_to(first_account) == 2
                * stake && payout.credited_to(second_account) == 0 && game.amount_won == Some(
                (2 * stake) as u64,
            )
            &&& game.state == GameState::SecondPlayerWon ==> payout.credited_to(second_account)
                == 2 * stake && payout.credited_to(first_account) == 0 && game.amount_won == Some(
                (2 * stake) as u64,
            )
            &&& game.state == GameState::Draw ==> payout.credited_to(first_account) == stake
                && payout.credited_to(second_account) == stake && game.amount_won
                == ctx.game.amount_won
        }),
{
}

/// What an unwinding moves: each player's account receives the stake out
/// of that player's escrow, and both escrows are closed. The two players'
/// accounts are taken to be different accounts.
pub proof fn law_unwinding_amounts(ctx: UnwindGame, now: i64)
    requires
        ctx.unwound(now) is Ok,
        ctx.first_player_token_account != ctx.second_player_token_account,
    ensures
        ({
            let payout = ctx.unwound(now)->Ok_0;
            let stake = ctx.game.amount_to_match as int;
            &&& payout.credited_to(ctx.first_player_token_account) == stake
            &&& payout.credited_to(ctx.second_player_token_account) == stake
            &&& payout.first_transfer.from == ctx.game.first_player_escrow
            &&& payout.second_transfer.from == ctx.game.second_player_escrow->0
            &&& payout.closes(ctx.game.first_player_escrow)
            &&& payout.closes(ctx.game.second_player_escrow->0)
        }),
{
}

/// Nobody plays against itself: the first player's own joining is refused,
/// in whatever state the game is.
pub proof fn law_join_needs_another_player(ctx: JoinGame, hash: [u8; 32])
    requires
        ctx.player == ctx.game.first_player,
    ensures
        ctx.joined(hash) == Err::<(Game, Deposit), RockPaperScissorsError>(
            RockPaperScissorsError::BothPlayersCantBeTheSame,
        ),
{
}

/// Each way of ending a game has its state: cancelling succeeds only on a
/// created game, unwinding only on a started and stale one, settling only
/// on a started one; and joining succeeds only on a created game. Outside
/// these states cancelling, unwinding and settling are refused as an
/// invalid game state.
pub proof fn law_states_of_the_instructions(
    cancel: CancelGame,
    unwind: UnwindGame,
    settle: SettleGame,
    join: JoinGame,
    hash: [u8; 32],
    now: i64,
)
    ensures
        cancel.cancelled() is Ok ==> cancel.game.state == GameState::Created,
        cancel.game.state != GameState::Created ==> cancel.cancelled() == Err::<
            crate::instructions::game::funds::Refund,
            RockPaperScissorsError,
        >(RockPaperScissorsError::InvalidGameState),
        unwind.unwound(now) is Ok ==> unwind.game.state == GameState::Started && unwind.game.stale(
            now as int,
            unwind.settings.time_for_stale as int,
        ),
        unwind.game.state != GameState::Started ==> unwind.unwound(now) == Err::<
            Payout,
            RockPaperScissorsError,
        >(RockPaperScissorsError::InvalidGameState),
        settle.settled(now) is Ok ==> settle.game.state == GameState::Started,
        settle.game.state != GameState::Started ==> settle.settled(now) == Err::<
            (Game, Payout),
            RockPaperScissorsError,
        >(RockPaperScissorsError::InvalidGameState),
        join.joined(hash) is Ok ==> join.game.state == GameState::Created,
{
}

/// A game only moves forward, and what was fixed stays fixed: joining takes
/// a created game to `Started`, a reveal leaves it `Started`, settling
/// takes it to one of the three ends, so that no instruction lowers a
/// game's rank; and none of them changes the stake, the asset, the first
/// player or the first player's commitment.
pub proof fn law_games_move_forward(
    join: JoinGame,
    hash: [u8; 32],
    reveal: RevealChoice,
    choice: Choice,
    created_hash: Seq<u8>,
    settle: SettleGame,
    now: i64,
)
    ensures
        join.joined(hash) matches Ok((game, _)) ==> join.game.state == GameState::Created
            && game.state == GameState::Started && game.state.rank() > join.game.state.rank()
            && game.keeps_terms_of(join.game),
        reveal.revealed(choice, created_hash, now) matches Ok(game) ==> reveal.game.state
            == GameState::Started && game.state == GameState::Started && game.state.rank()
            == reveal.game.state.rank() && game.keeps_terms_of(reveal.game),
        settle.settled(now) matches Ok((game, _)) ==> settle.game.state == GameState::Started
            && game.state.is_terminal() && game.state.rank() > settle.game.state.rank()
            && game.keeps_terms_of(settle.game),
{
}

/// The instructions keep a game well formed.
pub proof fn law_games_stay_well_formed(
    join: JoinGame,
    hash: [u8; 32],
    reveal: RevealChoice,
    choice: Choice,
    created_hash: Seq<u8>,
    settle: SettleGame,
    now: i64,
)
    ensures
        join.game.wf() ==> (join.joined(hash) matches Ok((game, _)) ==> game.wf()),
        reveal.game.wf() ==> (reveal.revealed(choice, created_hash, now) matches Ok(game)
            ==> game.wf()),
        settle.game.wf() ==> (settle.settled(now) matches Ok((game, _)) ==> game.wf()),
{
}

} // verus!
