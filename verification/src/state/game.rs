//! The record of one match and the rules that decide it.

use vstd::prelude::*;
use crate::error::RockPaperScissorsError;
use crate::pubkey::Pubkey;
use crate::state::settings::Settings;

verus! {

/// One of the two sides of a game.
#[derive(Clone, Copy, Debug, PartialEq, Eq, Structural)]
pub enum Player {
    First,
    Second,
}

impl Player {
    /// The side that `key` plays in `game`, if it plays in it.
    pub open spec fn lookup(game: Game, key: Pubkey) -> Option<Player> {
        if game.first_player == key {
            Some(Player::First)
        } else if game.second_player == Some(key) {
            Some(Player::Second)
        } else {
            None
        }
    }

    /// The other side.
    pub open spec fn adversary(self) -> Player {
        match self {
            Player::First => Player::Second,
            Player::Second => Player::First,
        }
    }

    /// The side that `key` plays in `game`.
    pub fn from_game(game: &Game, key: &Pubkey) -> (side: Result<Player, RockPaperScissorsError>)
        ensures
            side == (match Player::lookup(*game, *key) {
                Some(player) => Ok::<Player, RockPaperScissorsError>(player),
                None => Err(RockPaperScissorsError::AccountIsNotAPlayerInTheGame),
            }),
    {
        if game.first_player == *key {
            return Ok(Player::First);
        }
        match game.second_player {
            Some(second) => {
                if second == *key {
                    Ok(Player::Second)
                } else {
                    Err(RockPaperScissorsError::AccountIsNotAPlayerInTheGame)
                }
            },
            None => Err(RockPaperScissorsError::AccountIsNotAPlayerInTheGame),
        }
    }
}

/// What a player throws.
#[derive(Clone, Copy, Debug, PartialEq, Eq, Structural)]
pub enum Choice {
    Rock,
    Paper,
    Scissors,
}

impl Choice {
    /// The byte that stands for the choice in a commitment.
    pub open spec fn spec_to_byte(self) -> u8 {
        match self {
            Choice::Rock => 0,
            Choice::Paper => 1,
            Choice::Scissors => 2,
        }
    }

    /// The byte that stands for the choice in a commitment.
    #[verifier::when_used_as_spec(spec_to_byte)]
    pub fn to_byte(self) -> (byte: u8)
        ensures
            byte == self.spec_to_byte(),
    {
        match self {
            Choice::Rock => 0,
            Choice::Paper => 1,
            Choice::Scissors => 2,
        }
    }

    /// Rock beats scissors, paper beats rock, scissors beat paper.
    pub open spec fn beats(self, other: Choice) -> bool {
        ||| self == Choice::Rock && other == Choice::Scissors
        ||| self == Choice::Paper && other == Choice::Rock
        ||| self == Choice::Scissors && other == Choice::Paper
    }

    /// The side that wins when the first player throws `first` and the second
    /// `second`; nobody wins when both throw the same.
    pub open spec fn winner(first: Choice, second: Choice) -> Option<Player> {
        if first == second {
            None
        } else if first.beats(second) {
            Some(Player::First)
        } else {
            Some(Player::Second)
        }
    }

    /// Compares the two throws.
    pub fn compare(first: Choice, second: Choice) -> (winner: Option<Player>)
        ensures
            winner == Choice::winner(first, second),
    {
        match (first, second) {
            (Choice::Rock, Choice::Rock) => None,
            (Choice::Paper, Choice::Paper) => None,
            (Choice::Scissors, Choice::Scissors) => None,
            (Choice::Rock, Choice::Scissors) => Some(Player::First),
            (Choice::Paper, Choice::Rock) => Some(Player::First),
            (Choice::Scissors, Choice::Paper) => Some(Player::First),
            (Choice::Rock, Choice::Paper) => Some(Player::Second),
            (Choice::Paper, Choice::Scissors) => Some(Player::Second),
            (Choice::Scissors, Choice::Rock) => Some(Player::Second),
        }
    }
}

/// Where a game stands. A game only moves forward:
/// `Created`, then `Started`, then one of the three ends.
#[derive(Clone, Copy, Debug, PartialEq, Eq, Structural)]
pub enum GameState {
    Created,
    Started,
    FirstPlayerWon,
    SecondPlayerWon,
    Draw,
}

impl GameState {
    /// The game is over.
    pub open spec fn is_terminal(self) -> bool {
        self == GameState::FirstPlayerWon || self == GameState::SecondPlayerWon || self
            == GameState::Draw
    }

    /// How far the game has come: 0 when created, 1 when started, 2 when over.
    pub open spec fn rank(self) -> nat {
        match self {
            GameState::Created => 0,
            GameState::Started => 1,
            _ => 2,
        }
    }

    /// The state in which a game ends.
    pub open spec fn ended(winner: Option<Player>) -> GameState {
        match winner {
            Some(Player::First) => GameState::FirstPlayerWon,
            Some(Player::Second) => GameState::SecondPlayerWon,
            None => GameState::Draw,
        }
    }
}

/// What the game account signs with when it moves escrowed funds: the seeds
/// of its derived address, which are the `game` tag, the first player's
/// address, the bytes of the game's identifier and the bump.
#[derive(Clone, Debug, PartialEq, Eq)]
pub struct GameAuthority {
    pub first_player: Pubkey,
    pub game_id: String,
    pub bump: u8,
}

impl GameAuthority {
    /// The seeds, in the order in which the address is derived from them.
    pub open spec fn spec_seeds(self) -> Seq<Seq<u8>> {
        seq![
            crate::constants::GAME@,
            self.first_player@,
            vstd::utf8::encode_utf8(self.game_id@),
            seq![self.bump],
        ]
    }

    /// The seeds, in the order in which the address is derived from them.
    pub fn seeds(&self) -> (seeds: Vec<Vec<u8>>)
        ensures
            seeds.deep_view() == self.spec_seeds(),
    {
        let mut tag: Vec<u8> = Vec::new();
        let mut i: usize = 0;
        while i < 4
            invariant
                i <= 4,
                tag@ == crate::constants::GAME@.subrange(0, i as int),
            decreases 4 - i,
        {
            tag.push(crate::constants::GAME[i]);
            i += 1;
        }
        let mut owner: Vec<u8> = Vec::new();
        let mut j: usize = 0;
        while j < 32
            invariant
                j <= 32,
                owner@ == self.first_player@.subrange(0, j as int),
            decreases 32 - j,
        {
            owner.push(self.first_player.bytes[j]);
            j += 1;
        }
        let id: Vec<u8> = self.game_id.as_str().as_bytes_vec();
        let mut bump: Vec<u8> = Vec::new();
        bump.push(self.bump);
        let mut seeds: Vec<Vec<u8>> = Vec::new();
        seeds.push(tag);
        seeds.push(owner);
        seeds.push(id);
        seeds.push(bump);
        proof {
            assert(seeds@[0]@ =~= crate::constants::GAME@);
            assert(seeds@[1]@ =~= self.first_player@);
            assert(seeds@[3]@ =~= seq![self.bump]);
            assert forall|k: int| 0 <= k < 4 implies #[trigger] seeds.deep_view()[k]
                == seeds@[k]@ by {
                assert(seeds@[k].deep_view() =~= seeds@[k]@);
            }
            assert(seeds.deep_view() =~= self.spec_seeds());
        }
        seeds
    }
}

/// The record of one match.
#[derive(Clone, Debug, PartialEq, Eq)]
pub struct Game {
    /// Discriminant of the record's derived address.
    pub bump: u8,
    /// The creator's name for this game.
    pub game_id: String,
    /// The staked asset.
    pub mint: Pubkey,
    /// The program that keeps the asset's accounts.
    pub token_program: Pubkey,
    /// The stake that each player deposits.
    pub amount_to_match: u64,
    pub first_player: Pubkey,
    pub first_player_hash: [u8; 32],
    pub first_player_escrow: Pubkey,
    pub first_player_choice: Option<Choice>,
    pub first_player_revealed_at: Option<i64>,
    pub second_player: Option<Pubkey>,
    pub second_player_hash: Option<[u8; 32]>,
    pub second_player_escrow: Option<Pubkey>,
    pub second_player_choice: Option<Choice>,
    pub second_player_revealed_at: Option<i64>,
    /// What the winner received; set only when somebody won.
    pub amount_won: Option<u64>,
    /// When the game was settled, whoever won.
    pub drawn_at: Option<i64>,
    pub state: GameState,
    pub created_at: i64,
}

impl Game {
    /// What holds of every game that the instructions produce.
    pub open spec fn wf(self) -> bool {
        &&& self.state == GameState::Created <==> self.second_player is None
        &&& self.second_player is None <==> self.second_player_hash is None
        &&& self.second_player is None <==> self.second_player_escrow is None
        &&& self.second_player != Some(self.first_player)
        &&& self.first_player_choice is Some <==> self.first_player_revealed_at is Some
        &&& self.second_player_choice is Some <==> self.second_player_revealed_at is Some
        &&& self.state == GameState::Created ==> self.first_player_choice is None
            && self.second_player_choice is None
        &&& self.drawn_at is Some <==> self.state.is_terminal()
        &&& self.amount_won is Some <==> (self.state == GameState::FirstPlayerWon || self.state
            == GameState::SecondPlayerWon)
        &&& self.amount_won matches Some(won) ==> won == 2 * self.amount_to_match
    }

    /// Bytes that the stored record takes: an 8-byte tag, the bump, the
    /// identifier (a 4-byte length and up to 32 bytes), then each field at its
    /// fixed width, an optional field with one byte more that says whether it
    /// is there.
    pub open spec fn spec_size() -> nat {
        (8 + 1 + (4 + 32) + 32 + 32 + 8
            + 32 + 32 + 32 + (1 + 1) + (1 + 8)
            + (1 + 32) + (1 + 32) + (1 + 32) + (1 + 1) + (1 + 8)
            + (1 + 8) + (1 + 8)
            + 1 + 8) as nat
    }

    /// Bytes that the stored record takes.
    pub fn size() -> (bytes: usize)
        ensures
            bytes == Game::spec_size(),
            bytes == 361,
    {
        8 + 1 + (4 + 32) + 32 + 32 + 8
            + 32 + 32 + 32 + (1 + 1) + (1 + 8)
            + (1 + 32) + (1 + 32) + (1 + 32) + (1 + 1) + (1 + 8)
            + (1 + 8) + (1 + 8)
            + 1 + 8
    }

    /// A game that its first player has just created.
    pub fn new(
        bump: u8,
        game_id: String,
        mint: Pubkey,
        token_program: Pubkey,
        amount_to_match: u64,
        first_player: Pubkey,
        first_player_hash: [u8; 32],
        first_player_escrow: Pubkey,
        created_at: i64,
    ) -> (game: Game)
        ensures
            game == (Game {
                bump,
                game_id,
                mint,
                token_program,
                amount_to_match,
                first_player,
                first_player_hash,
                first_player_escrow,
                first_player_choice: None,
                first_player_revealed_at: None,
                second_player: None,
                second_player_hash: None,
                second_player_escrow: None,
                second_player_choice: None,
                second_player_revealed_at: None,
                amount_won: None,
                drawn_at: None,
                state: GameState::Created,
                created_at,
            }),
            game.wf(),
    {
        Game {
            bump,
            game_id,
            mint,
            token_program,
            amount_to_match,
            first_player,
            first_player_hash,
            first_player_escrow,
            first_player_choice: None,
            first_player_revealed_at: None,
            second_player: None,
            second_player_hash: None,
            second_player_escrow: None,
            second_player_choice: None,
            second_player_revealed_at: None,
            amount_won: None,
            drawn_at: None,
            state: GameState::Created,
            created_at,
        }
    }

    /// The game after the second player has joined it.
    pub open spec fn joined(
        self,
        second_player: Pubkey,
        second_player_hash: [u8; 32],
        second_player_escrow: Pubkey,
    ) -> Game {
        Game {
            second_player: Some(second_player),
            second_player_hash: Some(second_player_hash),
            second_player_escrow: Some(second_player_escrow),
            state: GameState::Started,
            ..self
        }
    }

    /// Records the second player and starts the game.
    pub fn join_game(
        &mut self,
        second_player: Pubkey,
        second_player_hash: [u8; 32],
        second_player_escrow: Pubkey,
    )
        ensures
            *final(self) == old(self).joined(
                second_player,
                second_player_hash,
                second_player_escrow,
            ),
            old(self).wf() && old(self).state == GameState::Created && second_player != old(
                self,
            ).first_player ==> final(self).wf(),
    {
        self.second_player = Some(second_player);
        self.second_player_hash = Some(second_player_hash);
        self.second_player_escrow = Some(second_player_escrow);
        self.state = GameState::Started;
    }

    /// The game after `player` has revealed `choice` at `revealed_at`.
    pub open spec fn revealed(self, player: Player, choice: Choice, revealed_at: i64) -> Game {
        match player {
            Player::First => Game {
                first_player_choice: Some(choice),
                first_player_revealed_at: Some(revealed_at),
                ..self
            },
            Player::Second => Game {
                second_player_choice: Some(choice),
                second_player_revealed_at: Some(revealed_at),
                ..self
            },
        }
    }

    /// Records a player's choice together with the time of its reveal.
    pub fn set_player_choice(&mut self, player: Player, choice: Choice, revealed_at: i64)
        ensures
            *final(self) == old(self).revealed(player, choice, revealed_at),
            old(self).wf() && old(self).state == GameState::Started ==> final(self).wf(),
    {
        match player {
            Player::First => {
                self.first_player_choice = Some(choice);
                self.first_player_revealed_at = Some(revealed_at);
            },
            Player::Second => {
                self.second_player_choice = Some(choice);
                self.second_player_revealed_at = Some(revealed_at);
            },
        }
    }

    /// When `player` revealed, if it has.
    pub open spec fn revealed_at(self, player: Player) -> Option<i64> {
        match player {
            Player::First => self.first_player_revealed_at,
            Player::Second => self.second_player_revealed_at,
        }
    }

    /// `player` has forfeited at `now`: it has not revealed, its adversary
    /// has, and the penalization window since that reveal has passed. The sum
    /// is the mathematical one.
    pub open spec fn forfeits(self, player: Player, now: int, time_for_penalization: int) -> bool {
        &&& self.revealed_at(player) is None
        &&& self.revealed_at(player.adversary()) matches Some(adversary_revealed_at)
        &&& adversary_revealed_at + time_for_penalization <= now
    }

    /// Whether `player` has forfeited at `now`.
    pub fn did_player_forfeit(&self, player: Player, now: i64, time_for_penalization: i64) -> (forfeited:
        bool)
        ensures
            forfeited == self.forfeits(player, now as int, time_for_penalization as int),
    {
        let (player_revealed_at, adversary_revealed_at) = match player {
            Player::First => (self.first_player_revealed_at, self.second_player_revealed_at),
            Player::Second => (self.second_player_revealed_at, self.first_player_revealed_at),
        };
        // This player revealed, can't count as a forfeit.
        if player_revealed_at.is_some() {
            return false;
        }
        match adversary_revealed_at {
            // Neither player has revealed, so no forfeit.
            None => false,
            // This player didn't reveal, but the adversary did, so forfeit
            // once the window has passed.
            Some(revealed_at) => revealed_at as i128 + time_for_penalization as i128 <= now as i128,
        }
    }

    /// The game after it has been settled at `now` for `winner`.
    pub open spec fn claimed(self, winner: Option<Player>, amount_won: u64, now: i64) -> Game {
        Game {
            state: GameState::ended(winner),
            amount_won: if winner is Some {
                Some(amount_won)
            } else {
                self.amount_won
            },
            drawn_at: Some(now),
            ..self
        }
    }

    /// Ends the game: records who won, what the winner received and when.
    pub fn set_claimed(&mut self, winner: &Option<Player>, amount_won: u64, now: i64)
        ensures
            *final(self) == old(self).claimed(*winner, amount_won, now),
            old(self).wf() && old(self).state == GameState::Started && (*winner is Some
                ==> amount_won == 2 * old(self).amount_to_match) ==> final(self).wf(),
    {
        self.state = match winner {
            Some(winner) => match winner {
                Player::First => GameState::FirstPlayerWon,
                Player::Second => GameState::SecondPlayerWon,
            },
            None => GameState::Draw,
        };
        if winner.is_some() {
            self.amount_won = Some(amount_won);
        }
        self.drawn_at = Some(now);
    }

    /// The game is stale at `now`: it has started, nobody has revealed, and
    /// the staleness window since its creation has passed. The sum is the
    /// mathematical one.
    pub open spec fn stale(self, now: int, time_for_stale: int) -> bool {
        &&& self.state == GameState::Started
        &&& self.first_player_revealed_at is None
        &&& self.second_player_revealed_at is None
        &&& self.created_at + time_for_stale <= now
    }

    /// Whether the game is stale at `now`.
    pub fn is_stale(&self, now: i64, time_for_stale: i64) -> (stale: bool)
        ensures
            stale == self.stale(now as int, time_for_stale as int),
    {
        let no_player_revealed = self.is_started() && self.first_player_revealed_at.is_none()
            && self.second_player_revealed_at.is_none();
        no_player_revealed && self.created_at as i128 + time_for_stale as i128 <= now as i128
    }

    /// Whether the game is in the state `Created`.
    pub fn is_created(&self) -> (created: bool)
        ensures
            created == (self.state == GameState::Created),
    {
        match self.state {
            GameState::Created => true,
            _ => false,
        }
    }

    /// Whether the game is in the state `Started`.
    pub fn is_started(&self) -> (started: bool)
        ensures
            started == (self.state == GameState::Started),
    {
        match self.state {
            GameState::Started => true,
            _ => false,
        }
    }

    /// Whether `key` is one of the game's players.
    pub fn is_player(&self, key: &Pubkey) -> (plays: bool)
        ensures
            plays == (Player::lookup(*self, *key) is Some),
    {
        if self.first_player == *key {
            return true;
        }
        match self.second_player {
            Some(second) => second == *key,
            None => false,
        }
    }

    /// The side that `key` plays.
    pub fn to_player(&self, key: &Pubkey) -> (side: Result<Player, RockPaperScissorsError>)
        ensures
            side == (match Player::lookup(*self, *key) {
                Some(player) => Ok::<Player, RockPaperScissorsError>(player),
                None => Err(RockPaperScissorsError::InvalidPlayer),
            }),
    {
        if self.first_player == *key {
            return Ok(Player::First);
        }
        match self.second_player {
            Some(second) => {
                if second == *key {
                    Ok(Player::Second)
                } else {
                    Err(RockPaperScissorsError::InvalidPlayer)
                }
            },
            None => Err(RockPaperScissorsError::InvalidPlayer),
        }
    }

    /// How the game is decided at `now`. A game that has not started, or is
    /// over, is not decided. A forfeit comes first: the first player's, then
    /// the second's. Without a forfeit both choices are needed, and the
    /// throws decide; `None` is a draw.
    pub open spec fn winner(self, now: int, time_for_penalization: int) -> Result<
        Option<Player>,
        RockPaperScissorsError,
    > {
        if self.state != GameState::Started {
            Err(RockPaperScissorsError::InvalidGameState)
        } else if self.forfeits(Player::First, now, time_for_penalization) {
            Ok(Some(Player::Second))
        } else if self.forfeits(Player::Second, now, time_for_penalization) {
            Ok(Some(Player::First))
        } else {
            match (self.first_player_choice, self.second_player_choice) {
                (Some(first), Some(second)) => Ok(Choice::winner(first, second)),
                _ => Err(RockPaperScissorsError::InvalidGameState),
            }
        }
    }

    /// Decides the game at `now`.
    pub fn get_winner(&self, now: i64, settings: &Settings) -> (winner: Result<
        Option<Player>,
        RockPaperScissorsError,
    >)
        ensures
            winner == self.winner(now as int, settings.time_for_penalization as int),
    {
        if !self.is_started() {
            return Err(RockPaperScissorsError::InvalidGameState);
        }
        let did_first_player_forfeit = self.did_player_forfeit(
            Player::First,
            now,
            settings.time_for_penalization,
        );
        if did_first_player_forfeit {
            return Ok(Some(Player::Second));
        }
        let did_second_player_forfeit = self.did_player_forfeit(
            Player::Second,
            now,
            settings.time_for_penalization,
        );
        if did_second_player_forfeit {
            return Ok(Some(Player::First));
        }
        match (self.first_player_choice, self.second_player_choice) {
            (Some(first_player_choice), Some(second_player_choice)) => Ok(
                Choice::compare(first_player_choice, second_player_choice),
            ),
            _ => Err(RockPaperScissorsError::InvalidGameState),
        }
    }

    /// The game has the terms of `earlier`: the same identifier, asset,
    /// stake, first player with its commitment and escrow, and time of
    /// creation.
    pub open spec fn keeps_terms_of(self, earlier: Game) -> bool {
        &&& self.bump == earlier.bump
        &&& self.game_id == earlier.game_id
        &&& self.mint == earlier.mint
        &&& self.token_program == earlier.token_program
        &&& self.amount_to_match == earlier.amount_to_match
        &&& self.first_player == earlier.first_player
        &&& self.first_player_hash == earlier.first_player_hash
        &&& self.first_player_escrow == earlier.first_player_escrow
        &&& self.created_at == earlier.created_at
    }

    /// The game is in play: it has started, and its second player and that
    /// player's escrow are on record.
    pub open spec fn in_play(self) -> bool {
        &&& self.state == GameState::Started
        &&& self.second_player is Some
        &&& self.second_player_escrow is Some
    }

    /// The second player and its escrow, of a game in play.
    pub fn second_side(&self) -> (side: Option<(Pubkey, Pubkey)>)
        ensures
            side == (if self.in_play() {
                Some((self.second_player->0, self.second_player_escrow->0))
            } else {
                None::<(Pubkey, Pubkey)>
            }),
    {
        if !self.is_started() {
            return None;
        }
        match (self.second_player, self.second_player_escrow) {
            (Some(player), Some(escrow)) => Some((player, escrow)),
            _ => None,
        }
    }

    /// The choice that `player` has revealed, if it has.
    pub open spec fn choice_of(self, player: Player) -> Option<Choice> {
        match player {
            Player::First => self.first_player_choice,
            Player::Second => self.second_player_choice,
        }
    }

    /// The commitment that `player` made when it entered the game.
    pub open spec fn commitment_of(self, player: Player) -> Option<[u8; 32]> {
        match player {
            Player::First => Some(self.first_player_hash),
            Player::Second => self.second_player_hash,
        }
    }

    /// What the game account signs with.
    pub open spec fn spec_authority(self) -> GameAuthority {
        GameAuthority { first_player: self.first_player, game_id: self.game_id, bump: self.bump }
    }

    /// What the game account signs with.
    pub fn authority(&self) -> (authority: GameAuthority)
        ensures
            authority == self.spec_authority(),
    {
        GameAuthority {
            first_player: self.first_player,
            game_id: self.game_id.clone(),
            bump: self.bump,
        }
    }
}

} // verus!
