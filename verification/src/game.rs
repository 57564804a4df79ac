//! The core logic of the game.
use crate::card::hand::{ActiveTurn, PlayerHand, MAX_STAKE};
use crate::card::shoe::{Shoe, ShoeView};
use crate::card::{Card, Rank};
use crate::game::model::{
    dealt_card, first_single, lemma_step_refusal, lemma_step_without_input,
    lemma_step_without_shuffle, TableView,
};
use crate::rules::Rules;
use crate::state::{pending_views, GameState, GameStateView};
use crate::statistics::Statistics;
use vstd::prelude::*;

pub mod model;
pub mod transitions;

verus! {

/// The player's options for playing their hand
#[derive(Debug, Clone, Copy, PartialEq, Eq, Structural)]
pub enum HandAction {
    Stand,
    Hit,
    Double,
    Split,
    Surrender,
}

/// The game input. Different states require different inputs.
#[derive(Debug, Clone, Copy, PartialEq, Eq, Structural)]
pub enum Input {
    Bet(u32),
    Choice(bool),
    Action(HandAction),
}

/// Why a bet is refused.
#[derive(Debug, Clone, Copy, PartialEq, Eq, Structural)]
pub enum BetError {
    TooLow,
    TooHigh,
}

/// Why a hand cannot be doubled.
#[derive(Debug, Clone, Copy, PartialEq, Eq, Structural)]
pub enum DoubleError {
    NotTwoCards,
    DoubleAfterSplitNotAllowed,
}

/// Why a hand cannot be split.
#[derive(Debug, Clone, Copy, PartialEq, Eq, Structural)]
pub enum SplitError {
    NotAPair,
    MaxSplitsReached,
    SplitAcesNotAllowed,
}

/// Why a hand cannot be surrendered.
#[derive(Debug, Clone, Copy, PartialEq, Eq, Structural)]
pub enum SurrenderError {
    NotTwoCards,
    LateSurrenderNotAllowed,
}

/// Why the game could not progress. The state is as it was, and another
/// input can be tried.
#[derive(Debug, Clone, Copy, PartialEq, Eq, Structural)]
pub enum Error {
    WrongInput,
    BetError(BetError),
    DoubleError(DoubleError),
    SplitError(SplitError),
    SurrenderError(SurrenderError),
}

impl Error {
    /// What the error says.
    pub open spec fn message(self) -> Seq<char> {
        match self {
            Error::WrongInput => "Wrong input"@,
            Error::BetError(BetError::TooLow) => "Bet too low"@,
            Error::BetError(BetError::TooHigh) => "Bet too high"@,
            Error::DoubleError(DoubleError::NotTwoCards) => "Not two cards"@,
            Error::DoubleError(DoubleError::DoubleAfterSplitNotAllowed) => {
                "Double after split not allowed"@
            },
            Error::SplitError(SplitError::NotAPair) => "Not a pair"@,
            Error::SplitError(SplitError::MaxSplitsReached) => "Max splits reached"@,
            Error::SplitError(SplitError::SplitAcesNotAllowed) => "Split aces not allowed"@,
            Error::SurrenderError(SurrenderError::NotTwoCards) => "Not two cards"@,
            Error::SurrenderError(SurrenderError::LateSurrenderNotAllowed) => {
                "Late surrender not allowed"@
            },
        }
    }

    /// The error in words.
    pub fn to_string(&self) -> (text: String)
        ensures
            text@ == self.message(),
    {
        match self {
            Self::WrongInput => "Wrong input".to_owned(),
            Self::BetError(err) => match err {
                BetError::TooLow => "Bet too low".to_owned(),
                BetError::TooHigh => "Bet too high".to_owned(),
            },
            Self::DoubleError(err) => match err {
                DoubleError::NotTwoCards => "Not two cards".to_owned(),
                DoubleError::DoubleAfterSplitNotAllowed => {
                    "Double after split not allowed".to_owned()
                },
            },
            Self::SplitError(err) => match err {
                SplitError::NotAPair => "Not a pair".to_owned(),
                SplitError::MaxSplitsReached => "Max splits reached".to_owned(),
                SplitError::SplitAcesNotAllowed => "Split aces not allowed".to_owned(),
            },
            Self::SurrenderError(err) => match err {
                SurrenderError::NotTwoCards => "Not two cards".to_owned(),
                SurrenderError::LateSurrenderNotAllowed => "Late surrender not allowed".to_owned(),
            },
        }
    }
}

impl HandAction {
    /// The action with the letter that stands for it.
    pub open spec fn name(self) -> Seq<char> {
        match self {
            HandAction::Stand => "Stand (s)"@,
            HandAction::Hit => "Hit (h)"@,
            HandAction::Double => "Double (d)"@,
            HandAction::Split => "Split (p)"@,
            HandAction::Surrender => "Surrender (u)"@,
        }
    }

    /// The action in words, with the letter that stands for it.
    pub fn to_string(&self) -> (text: String)
        ensures
            text@ == self.name(),
    {
        match self {
            HandAction::Stand => "Stand (s)".to_owned(),
            HandAction::Hit => "Hit (h)".to_owned(),
            HandAction::Double => "Double (d)".to_owned(),
            HandAction::Split => "Split (p)".to_owned(),
            HandAction::Surrender => "Surrender (u)".to_owned(),
        }
    }

    /// The action that a word or its letter stands for: "s" or "stand",
    /// "h" or "hit", "d" or "double", "p" or "split", "u" or "surrender".
    pub open spec fn named(word: Seq<char>) -> Option<HandAction> {
        if word == "s"@ || word == "stand"@ {
            Some(HandAction::Stand)
        } else if word == "h"@ || word == "hit"@ {
            Some(HandAction::Hit)
        } else if word == "d"@ || word == "double"@ {
            Some(HandAction::Double)
        } else if word == "p"@ || word == "split"@ {
            Some(HandAction::Split)
        } else if word == "u"@ || word == "surrender"@ {
            Some(HandAction::Surrender)
        } else {
            None
        }
    }
}

/// Whether two texts are the same.
fn same_text(a: &str, b: &str) -> (same: bool)
    ensures
        same == (a@ == b@),
{
    a.to_owned() == b.to_owned()
}

/// Reads the action that the player typed.
pub fn parse_hand_action(s: &str) -> (action: Result<HandAction, ()>)
    ensures
        match action {
            Ok(action) => HandAction::named(s@) == Some(action),
            Err(_) => HandAction::named(s@) is None,
        },
{
    if same_text(s, "s") || same_text(s, "stand") {
        Ok(HandAction::Stand)
    } else if same_text(s, "h") || same_text(s, "hit") {
        Ok(HandAction::Hit)
    } else if same_text(s, "d") || same_text(s, "double") {
        Ok(HandAction::Double)
    } else if same_text(s, "p") || same_text(s, "split") {
        Ok(HandAction::Split)
    } else if same_text(s, "u") || same_text(s, "surrender") {
        Ok(HandAction::Surrender)
    } else {
        Err(())
    }
}

/// If the player input is invalid, the game cannot progress.
/// In these cases, the game returns an error with the unchanged state and the reason for the error.
pub type ProgressResult = Result<GameState, (GameState, Error)>;

/// The game table. This is where the game is played.
/// It holds the shoe, and the game rules.
#[derive(Debug)]
pub struct Table {
    /// The shoe of cards used in the game
    pub shoe: Shoe,
    /// The table rules
    pub rules: Rules,
    /// The game statistics
    pub statistics: Statistics,
    /// Fast-forward the transitions that need no input of the player
    pub fast_forward: bool,
}

impl View for Table {
    type V = TableView;

    open spec fn view(&self) -> TableView {
        TableView {
            shoe: self.shoe@,
            rules: self.rules,
            statistics: self.statistics,
            fast_forward: self.fast_forward,
        }
    }
}

impl Table {
    /// A table with the given shoe and rules, at which nothing has been
    /// played. It makes one transition at a time.
    #[must_use]
    pub fn new(shoe: Shoe, rules: Rules) -> (table: Table)
        ensures
            table.shoe == shoe,
            table.rules == rules,
            table.statistics == Statistics::empty(),
            !table.fast_forward,
    {
        Table { shoe, rules, statistics: Statistics::new(), fast_forward: false }
    }

    /// A helper function to determine if the player is allowed to double down on their current hand.
    /// The player can double down if their hand consists of two cards,
    /// and the double after split rule does not prevent them from doing so.
    pub fn check_double_allowed(&self, player_turn: &ActiveTurn) -> (allowed: Result<
        (),
        DoubleError,
    >)
        ensures
            match allowed {
                Ok(_) => self.rules.double_error(player_turn@) is None,
                Err(error) => self.rules.double_error(player_turn@) == Some(error),
            },
    {
        if player_turn.current_hand().size() != 2 {
            Err(DoubleError::NotTwoCards)
        } else if player_turn.has_more_hands_than(1) && !self.rules.double_after_split {
            Err(DoubleError::DoubleAfterSplitNotAllowed)
        } else {
            Ok(())
        }
    }

    /// A helper function to determine if the player is allowed to split their current hand.
    /// The player can split if their hand is a pair,
    /// and the maximum splits and split-aces rules do not prevent them from doing so.
    pub fn check_split_allowed(&self, player_turn: &ActiveTurn) -> (allowed: Result<
        (),
        SplitError,
    >)
        ensures
            match allowed {
                Ok(_) => self.rules.split_error(player_turn@) is None,
                Err(error) => self.rules.split_error(player_turn@) == Some(error),
            },
    {
        let hand = player_turn.current_hand();
        if !hand.is_pair() {
            Err(SplitError::NotAPair)
        } else if hand.cards[0].rank == Rank::Ace && !self.rules.split_aces {
            Err(SplitError::SplitAcesNotAllowed)
        } else {
            let reached = match self.rules.max_splits {
                Some(max) => player_turn.has_more_hands_than(max),
                None => false,
            };
            if reached {
                Err(SplitError::MaxSplitsReached)
            } else {
                Ok(())
            }
        }
    }

    /// A helper function to determine if the player is allowed to surrender their current hand.
    /// The player can surrender if their hand consists of two cards and late surrendering
    /// is enabled in the game configuration.
    pub fn check_surrender_allowed(&self, hand: &PlayerHand) -> (allowed: Result<
        (),
        SurrenderError,
    >)
        ensures
            match allowed {
                Ok(_) => self.rules.surrender_error(hand@) is None,
                Err(error) => self.rules.surrender_error(hand@) == Some(error),
            },
    {
        if hand.size() != 2 {
            Err(SurrenderError::NotTwoCards)
        } else if !self.rules.late_surrender {
            Err(SurrenderError::LateSurrenderNotAllowed)
        } else {
            Ok(())
        }
    }
}

impl GameState {
    /// Whether the round waits for the player in this state.
    pub fn awaits_input(&self) -> (waits: bool)
        ensures
            waits == self@.awaits_input(),
    {
        match self {
            GameState::Betting => true,
            GameState::OfferEarlySurrender { .. } => true,
            GameState::OfferInsurance { .. } => true,
            GameState::PlayPlayerTurn { .. } => true,
            _ => false,
        }
    }

    /// Whether the numbers of the round stay within `u32` under the
    /// input: [`Table::progress`] asks for it.
    pub fn within_limits(&self, input: Option<Input>) -> (within: bool)
        requires
            self@.wf(),
        ensures
            within == self@.within_limits(input),
    {
        match self {
            GameState::Betting => match input {
                Some(Input::Bet(bet)) => bet <= MAX_STAKE,
                _ => true,
            },
            GameState::PlayPlayerTurn { current_turn, .. } => match input {
                Some(Input::Action(HandAction::Double)) | Some(Input::Action(HandAction::Split)) => {
                    current_turn.current_hand().bet <= MAX_STAKE - current_turn.stake()
                },
                _ => true,
            },
            _ => true,
        }
    }

    /// Whether the next transition from this state deals a card.
    pub fn deals_card(&self) -> (deals: bool)
        ensures
            deals == self@.deals_card(),
    {
        match self {
            GameState::DealFirstPlayerCards { bets, .. } => bets.len() > 0,
            GameState::DealFirstDealerCard { .. } => true,
            GameState::DealSecondPlayerCards { player_turns, .. } => {
                let ghost turns = pending_views(player_turns@);
                let mut i: usize = 0;
                while i < player_turns.len() && player_turns[i].hand.size() != 1
                    invariant
                        turns == pending_views(player_turns@),
                        i <= player_turns.len(),
                        first_single(turns, 0) == first_single(turns, i as nat),
                    decreases player_turns.len() - i,
                {
                    i += 1;
                }
                i < player_turns.len()
            },
            GameState::DealHoleCard { .. } => true,
            GameState::PlayerHit { .. } => true,
            GameState::PlayerDouble { .. } => true,
            GameState::DealFirstSplitCard { .. } => true,
            GameState::DealSecondSplitCard { .. } => true,
            GameState::PlayDealerTurn { .. } => true,
            _ => false,
        }
    }
}

impl Table {
    /// Why the table refuses the input in the state, if it does. Where it
    /// does, [`Table::progress`] returns this error and the state.
    pub fn refusal(&self, state: &GameState, input: Option<Input>) -> (error: Option<Error>)
        ensures
            error == state@.refusal(self.rules, input),
    {
        match state {
            GameState::Betting => match input {
                Some(Input::Bet(bet)) => {
                    let too_low = match self.rules.min_bet {
                        Some(min) => bet < min,
                        None => false,
                    };
                    let too_high = match self.rules.max_bet {
                        Some(max) => bet > max,
                        None => false,
                    };
                    if too_low {
                        Some(Error::BetError(BetError::TooLow))
                    } else if too_high {
                        Some(Error::BetError(BetError::TooHigh))
                    } else {
                        None
                    }
                },
                _ => Some(Error::WrongInput),
            },
            GameState::OfferEarlySurrender { .. } => match input {
                Some(Input::Choice(_)) => None,
                _ => Some(Error::WrongInput),
            },
            GameState::OfferInsurance { .. } => match input {
                Some(Input::Bet(_)) => None,
                _ => Some(Error::WrongInput),
            },
            GameState::PlayPlayerTurn { current_turn, .. } => match input {
                Some(Input::Action(action)) => match action {
                    HandAction::Double => match self.check_double_allowed(current_turn) {
                        Err(error) => Some(Error::DoubleError(error)),
                        Ok(_) => None,
                    },
                    HandAction::Split => match self.check_split_allowed(current_turn) {
                        Err(error) => Some(Error::SplitError(error)),
                        Ok(_) => None,
                    },
                    HandAction::Surrender => match self.check_surrender_allowed(
                        current_turn.current_hand(),
                    ) {
                        Err(error) => Some(Error::SurrenderError(error)),
                        Ok(_) => None,
                    },
                    _ => None,
                },
                _ => Some(Error::WrongInput),
            },
            _ => None,
        }
    }

    /// Makes one transition from the given state with the given input
    /// and, where the transition deals a card, the given card.
    /// Returns the next state of the game, or the same state and the
    /// reason if the input does not fit the state or the rules.
    #[verifier::rlimit(50)]
    #[verifier::spinoff_prover]
    pub fn step(&mut self, state: GameState, input: Option<Input>, card: Option<Card>) -> (next:
        ProgressResult)
        requires
            state@.refusal(old(self).rules, input) is None ==> state@.wf() && state@.within_limits(
                input,
            ),
            card is Some <==> state@.deals_card(),
        ensures
            final(self).rules == old(self).rules,
            final(self).fast_forward == old(self).fast_forward,
            final(self).statistics == old(self)@.after_step(state@, dealt_card(card)).statistics,
            final(self).shoe@ == if state@ is Shuffle {
                ShoeView::full(old(self).shoe@.decks, old(self).shoe@.max_penetration)
            } else {
                old(self).shoe@
            },
            old(self).shoe@.wf() ==> final(self).shoe@.wf(),
            match next {
                Ok(after) => {
                    &&& state@.step(
                        old(self).rules,
                        input,
                        dealt_card(card),
                        old(self).shoe@.needs_shuffle(),
                    ) == Ok::<GameStateView, Error>(after@)
                    &&& after@.wf()
                    &&& !state@.awaits_input() ==> after@.awaits_input() || after@.rank()
                        < state@.rank()
                },
                Err((same, error)) => {
                    &&& state@.step(
                        old(self).rules,
                        input,
                        dealt_card(card),
                        old(self).shoe@.needs_shuffle(),
                    ) == Err::<GameStateView, Error>(error)
                    &&& same == state
                    &&& *final(self) == *old(self)
                },
            },
            !state@.accepts(input) ==> next == Err::<GameState, (GameState, Error)>(
                (state, Error::WrongInput),
            ),
            next is Err <==> state@.refusal(old(self).rules, input) is Some,
    {
        proof {
            lemma_step_refusal(
                state@,
                self.rules,
                input,
                dealt_card(card),
                self.shoe@.needs_shuffle(),
            );
        }
        match state {
            GameState::Betting => {
                if let Some(Input::Bet(bet)) = input {
                    self.bet(bet)
                } else {
                    Err((GameState::Betting, Error::WrongInput))
                }
            },
            GameState::DealFirstPlayerCards { bets, player_turns } => {
                Ok(self.deal_first_player_card(bets, player_turns, card.unwrap()))
            },
            GameState::DealFirstDealerCard { player_turns } => {
                Ok(self.deal_first_dealer_card(player_turns, card.unwrap()))
            },
            GameState::DealSecondPlayerCards { player_turns, dealer_hand } => {
                Ok(self.deal_second_player_card(player_turns, dealer_hand, card))
            },
            GameState::DealHoleCard { player_turns, dealer_hand } => {
                Ok(self.deal_hole_card(player_turns, dealer_hand, card.unwrap()))
            },
            GameState::OfferEarlySurrender { player_turns, dealer_hand } => {
                if let Some(Input::Choice(early_surrender)) = input {
                    Ok(self.choose_early_surrender(player_turns, dealer_hand, early_surrender))
                } else {
                    Err((GameState::OfferEarlySurrender { player_turns, dealer_hand }, Error::WrongInput))
                }
            },
            GameState::OfferInsurance { player_turns, dealer_hand } => {
                if let Some(Input::Bet(insurance_bet)) = input {
                    Ok(self.bet_insurance(player_turns, dealer_hand, insurance_bet))
                } else {
                    Err((GameState::OfferInsurance { player_turns, dealer_hand }, Error::WrongInput))
                }
            },
            GameState::CheckDealerHoleCard { player_turns, dealer_hand } => {
                Ok(self.check_dealer_hole_card(player_turns, dealer_hand))
            },
            GameState::PlayPlayerTurn { pending_turns, current_turn, finished_turns, dealer_hand } => {
                if let Some(Input::Action(action)) = input {
                    self.play_player_turn(
                        pending_turns,
                        current_turn,
                        finished_turns,
                        dealer_hand,
                        action,
                    )
                } else {
                    Err(
                        (
                            GameState::PlayPlayerTurn {
                                pending_turns,
                                current_turn,
                                finished_turns,
                                dealer_hand,
                            },
                            Error::WrongInput,
                        ),
                    )
                }
            },
            GameState::PlayerStand { pending_turns, current_turn, finished_turns, dealer_hand } => {
                Ok(self.stand(pending_turns, current_turn, finished_turns, dealer_hand))
            },
            GameState::PlayerHit { pending_turns, current_turn, finished_turns, dealer_hand } => {
                Ok(self.hit(pending_turns, current_turn, finished_turns, dealer_hand, card.unwrap()))
            },
            GameState::PlayerDouble { pending_turns, current_turn, finished_turns, dealer_hand } => {
                Ok(
                    self.double(
                        pending_turns,
                        current_turn,
                        finished_turns,
                        dealer_hand,
                        card.unwrap(),
                    ),
                )
            },
            GameState::PlayerSplit { pending_turns, current_turn, finished_turns, dealer_hand } => {
                Ok(self.split(pending_turns, current_turn, finished_turns, dealer_hand))
            },
            GameState::DealFirstSplitCard {
                pending_turns,
                current_turn,
                new_hand,
                finished_turns,
                dealer_hand,
            } => {
                Ok(
                    self.deal_first_split_card(
                        pending_turns,
                        current_turn,
                        new_hand,
                        finished_turns,
                        dealer_hand,
                        card.unwrap(),
                    ),
                )
            },
            GameState::DealSecondSplitCard {
                pending_turns,
                current_turn,
                new_hand,
                finished_turns,
                dealer_hand,
            } => {
                Ok(
                    self.deal_second_split_card(
                        pending_turns,
                        current_turn,
                        new_hand,
                        finished_turns,
                        dealer_hand,
                        card.unwrap(),
                    ),
                )
            },
            GameState::PlayerSurrender { pending_turns, current_turn, finished_turns, dealer_hand } => {
                Ok(self.surrender(pending_turns, current_turn, finished_turns, dealer_hand))
            },
            GameState::RevealHoleCard { finished_turns, dealer_hand } => {
                Ok(self.play_dealer_turn_or_end_round(finished_turns, dealer_hand))
            },
            GameState::PlayDealerTurn { finished_turns, dealer_hand } => {
                Ok(self.play_dealer_turn(finished_turns, dealer_hand, card.unwrap()))
            },
            GameState::RoundOver { finished_turns, dealer_hand } => {
                Ok(self.end_round(finished_turns, dealer_hand))
            },
            GameState::Payout { total_bets, winnings } => Ok(self.pay_out_winnings(winnings)),
            GameState::Shuffle => Ok(self.shuffle_dispenser()),
        }
    }
}

impl Table {
    /// Plays the game from the given state and input.
    /// Returns the next state of the game, or the same state if the game could not progress.
    /// A card that the transition deals is drawn from the shoe. With
    /// `fast_forward` the transitions that follow are made as well, up to
    /// the next state that waits for the player.
    #[verifier::rlimit(50)]
    #[verifier::spinoff_prover]
    pub fn progress(&mut self, state: GameState, input: Option<Input>) -> (next: ProgressResult)
        requires
            old(self).shoe@.wf(),
            state@.refusal(old(self).rules, input) is None ==> state@.wf() && state@.within_limits(
                input,
            ),
        ensures
            final(self).shoe@.wf(),
            final(self).rules == old(self).rules,
            final(self).fast_forward == old(self).fast_forward,
            !state@.accepts(input) ==> next == Err::<GameState, (GameState, Error)>(
                (state, Error::WrongInput),
            ),
            match next {
                Ok(after) => {
                    &&& after@.wf()
                    &&& old(self).fast_forward ==> after@.awaits_input()
                    &&& exists|card: Card, count: nat|
                        {
                            &&& #[trigger] old(self)@.plays_to(
                                state@,
                                input,
                                card,
                                count,
                                (final(self)@, after@),
                            )
                            &&& !old(self).fast_forward ==> count == 0
                        }
                },
                Err((same, error)) => {
                    &&& same == state
                    &&& *final(self) == *old(self)
                    &&& state@.refusal(old(self).rules, input) == Some(error)
                },
            },
            next is Err <==> state@.refusal(old(self).rules, input) is Some,
    {
        let ghost start = self@;
        let ghost origin = state@;
        let card = if state.deals_card() {
            Some(self.shoe.draw_card())
        } else {
            None
        };
        proof {
            lemma_step_without_shuffle(
                origin,
                start.rules,
                input,
                dealt_card(card),
                start.shoe.needs_shuffle(),
                self.shoe@.needs_shuffle(),
            );
        }
        proof {
            lemma_step_refusal(
                origin,
                start.rules,
                input,
                dealt_card(card),
                self.shoe@.needs_shuffle(),
            );
        }
        let mut state = match self.step(state, input, card) {
            Ok(first) => first,
            Err((same, error)) => {
                return Err((same, error));
            },
        };
        let ghost first_table = self@;
        let ghost first = state@;
        let ghost count: nat = 0;
        while self.fast_forward && !state.awaits_input()
            invariant
                self.shoe@.wf(),
                self.rules == start.rules,
                self.fast_forward == start.fast_forward,
                state@.wf(),
                first_table.leads_to(first, count, (self@, state@)),
                self.fast_forward || count == 0,
            decreases state@.rank(),
        {
            let ghost table = self@;
            let ghost before = state@;
            let card = if state.deals_card() {
                Some(self.shoe.draw_card())
            } else {
                None
            };
            proof {
                lemma_step_without_input(
                    before,
                    table.rules,
                    None,
                    dealt_card(card),
                    self.shoe@.needs_shuffle(),
                );
                lemma_step_without_shuffle(
                    before,
                    table.rules,
                    None,
                    dealt_card(card),
                    table.shoe.needs_shuffle(),
                    self.shoe@.needs_shuffle(),
                );
            }
            // A state that does not wait for the player refuses nothing
            state = self.step(state, None, card).unwrap();
            proof {
                assert(self@ == table.after_step(before, dealt_card(card)));
                assert(before.step(
                    table.rules,
                    None,
                    dealt_card(card),
                    table.shoe.needs_shuffle(),
                ) == Ok::<GameStateView, Error>(state@));
                count = count + 1;
            }
        }
        assert(first_table == start.after_step(origin, dealt_card(card)));
        assert(start.plays_to(origin, input, dealt_card(card), count, (self@, state@)));
        Ok(state)
    }
}

} // verus!
