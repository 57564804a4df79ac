//! The round as a function: what each state makes of an input and a card.
use crate::card::hand::{
    hard_total, stake, ActiveTurnView, DealerHandView, FinishedTurnView, PendingTurnView,
    PlayerHandView, Status, MAX_STAKE,
};
use crate::card::shoe::ShoeView;
use crate::card::{Card, Rank, Suit};
use crate::game::{BetError, DoubleError, Error, HandAction, Input, SplitError, SurrenderError};
use crate::rules::Rules;
use crate::state::GameStateView;
use crate::statistics::Statistics;
use vstd::prelude::*;

verus! {

impl Rules {
    /// Why a bet is refused: it is below the minimum of the table, or
    /// else above its maximum.
    pub open spec fn bet_error(self, bet: u32) -> Option<BetError> {
        if self.min_bet matches Some(min) && bet < min {
            Some(BetError::TooLow)
        } else if self.max_bet matches Some(max) && bet > max {
            Some(BetError::TooHigh)
        } else {
            None
        }
    }

    /// Why the current hand of a turn cannot be doubled: it does not hold
    /// exactly two cards, or else the turn has been split and the table
    /// does not allow a double after a split.
    pub open spec fn double_error(self, turn: ActiveTurnView) -> Option<DoubleError> {
        if turn.current_hand().cards.len() != 2 {
            Some(DoubleError::NotTwoCards)
        } else if turn.hands.len() > 1 && !self.double_after_split {
            Some(DoubleError::DoubleAfterSplitNotAllowed)
        } else {
            None
        }
    }

    /// Why the current hand of a turn cannot be split: it is no pair, or
    /// else it is a pair of aces and the table does not allow splitting
    /// them, or else the turn has more hands than the table allows splits.
    pub open spec fn split_error(self, turn: ActiveTurnView) -> Option<SplitError> {
        if !turn.current_hand().is_pair() {
            Some(SplitError::NotAPair)
        } else if turn.current_hand().cards[0].rank == Rank::Ace && !self.split_aces {
            Some(SplitError::SplitAcesNotAllowed)
        } else if self.max_splits matches Some(max) && turn.hands.len() > max {
            Some(SplitError::MaxSplitsReached)
        } else {
            None
        }
    }

    /// Why a hand cannot be surrendered late: it does not hold exactly two
    /// cards, or else the table does not allow it.
    pub open spec fn surrender_error(self, hand: PlayerHandView) -> Option<SurrenderError> {
        if hand.cards.len() != 2 {
            Some(SurrenderError::NotTwoCards)
        } else if !self.late_surrender {
            Some(SurrenderError::LateSurrenderNotAllowed)
        } else {
            None
        }
    }
}

/// The position of the first turn whose hand holds a single card, or the
/// number of turns where there is none.
pub open spec fn first_single(turns: Seq<PendingTurnView>, from: nat) -> nat
    decreases turns.len() - from,
{
    if from >= turns.len() {
        turns.len()
    } else if turns[from as int].hand.cards.len() == 1 {
        from
    } else {
        first_single(turns, from + 1)
    }
}

/// Whether every turn holds a blackjack.
pub open spec fn all_blackjack(turns: Seq<PendingTurnView>) -> bool {
    forall|i: int| 0 <= i < turns.len() ==> (#[trigger] turns[i]).hand.status == Status::Blackjack
}

/// Whether the player stood on one of the hands.
pub open spec fn any_hand_stood(hands: Seq<PlayerHandView>) -> bool {
    exists|i: int| 0 <= i < hands.len() && (#[trigger] hands[i]).status == Status::Stood
}

/// Whether a player stood on a hand of one of the turns.
pub open spec fn any_stood(turns: Seq<FinishedTurnView>) -> bool {
    exists|i: int| 0 <= i < turns.len() && any_hand_stood((#[trigger] turns[i]).hands)
}

/// The turns as they end where they are never played.
pub open spec fn closed_turns(turns: Seq<PendingTurnView>) -> Seq<FinishedTurnView> {
    turns.map_values(|turn: PendingTurnView| turn.finished())
}

impl GameStateView {
    /// The states in which the round waits for the player.
    pub open spec fn awaits_input(self) -> bool {
        self is Betting || self is OfferEarlySurrender || self is OfferInsurance
            || self is PlayPlayerTurn
    }

    /// Whether the input is of the kind that the state waits for: a bet
    /// while betting and for the insurance, a choice for the early
    /// surrender, an action for a hand. A state that does not wait takes
    /// any input and ignores it.
    pub open spec fn accepts(self, input: Option<Input>) -> bool {
        match self {
            GameStateView::Betting => input matches Some(Input::Bet(_)),
            GameStateView::OfferEarlySurrender { .. } => input matches Some(Input::Choice(_)),
            GameStateView::OfferInsurance { .. } => input matches Some(Input::Bet(_)),
            GameStateView::PlayPlayerTurn { .. } => input matches Some(Input::Action(_)),
            _ => true,
        }
    }

    /// Whether the next transition deals a card.
    pub open spec fn deals_card(self) -> bool {
        match self {
            GameStateView::DealFirstPlayerCards { bets, .. } => bets.len() > 0,
            GameStateView::DealFirstDealerCard { .. } => true,
            GameStateView::DealSecondPlayerCards { player_turns, .. } => first_single(
                player_turns,
                0,
            ) < player_turns.len(),
            GameStateView::DealHoleCard { .. } => true,
            GameStateView::PlayerHit { .. } => true,
            GameStateView::PlayerDouble { .. } => true,
            GameStateView::DealFirstSplitCard { .. } => true,
            GameStateView::DealSecondSplitCard { .. } => true,
            GameStateView::PlayDealerTurn { .. } => true,
            _ => false,
        }
    }

    /// After the bet: the bet waits for its first card, or the bet is
    /// refused.
    pub open spec fn after_bet(rules: Rules, bet: u32) -> Result<GameStateView, Error> {
        match rules.bet_error(bet) {
            Some(error) => Err(Error::BetError(error)),
            None => Ok(
                GameStateView::DealFirstPlayerCards {
                    bets: seq![bet],
                    player_turns: Seq::empty(),
                },
            ),
        }
    }

    /// After the first card of a player: the last bet has become a turn
    /// with a hand of that card; the dealer is next once no bet is left.
    pub open spec fn after_first_player_card(
        bets: Seq<u32>,
        player_turns: Seq<PendingTurnView>,
        card: Card,
    ) -> GameStateView {
        let left = if bets.len() > 0 {
            bets.drop_last()
        } else {
            bets
        };
        let player_turns = if bets.len() > 0 {
            player_turns.push(
                PendingTurnView {
                    hand: PlayerHandView::fresh(card, bets.last()),
                    insurance_bet: 0,
                },
            )
        } else {
            player_turns
        };
        if left.len() == 0 {
            GameStateView::DealFirstDealerCard { player_turns }
        } else {
            GameStateView::DealFirstPlayerCards { bets: left, player_turns }
        }
    }

    /// After the first card of the dealer: the dealer has a hand of it.
    pub open spec fn after_first_dealer_card(
        rules: Rules,
        player_turns: Seq<PendingTurnView>,
        card: Card,
    ) -> GameStateView {
        GameStateView::DealSecondPlayerCards {
            player_turns,
            dealer_hand: DealerHandView::fresh(card, rules.dealer_soft_17),
        }
    }

    /// After the second card of a player: the first hand of one card has
    /// taken it; the hole card is next once every hand has two.
    pub open spec fn after_second_player_card(
        player_turns: Seq<PendingTurnView>,
        dealer_hand: DealerHandView,
        card: Card,
    ) -> GameStateView {
        let i = first_single(player_turns, 0) as int;
        if i < player_turns.len() {
            GameStateView::DealSecondPlayerCards {
                player_turns: player_turns.update(
                    i,
                    PendingTurnView { hand: player_turns[i].hand.with_card(card), ..player_turns[i] },
                ),
                dealer_hand,
            }
        } else {
            GameStateView::DealHoleCard { player_turns, dealer_hand }
        }
    }

    /// After the hole card: where the dealer shows less than ten, or every
    /// player has a blackjack, nothing is offered or checked and the
    /// players are next; else early surrender is offered where the table
    /// has it; else insurance where the table has it and the dealer shows
    /// an ace; else the dealer checks the hole card.
    pub open spec fn after_hole_card(
        rules: Rules,
        player_turns: Seq<PendingTurnView>,
        dealer_hand: DealerHandView,
        card: Card,
    ) -> GameStateView {
        let dealer_hand = dealer_hand.with_card(card);
        if dealer_hand.showing() < 10 || all_blackjack(player_turns) {
            Self::player_phase_start(player_turns, dealer_hand)
        } else if rules.early_surrender {
            GameStateView::OfferEarlySurrender { player_turns, dealer_hand }
        } else if rules.insurance && dealer_hand.showing() == 11 {
            GameStateView::OfferInsurance { player_turns, dealer_hand }
        } else {
            GameStateView::CheckDealerHoleCard { player_turns, dealer_hand }
        }
    }

    /// After the choice on the early surrender: the round is over where
    /// the player surrenders; else insurance is offered where the table
    /// has it and the dealer shows an ace; else the dealer checks the hole
    /// card.
    pub open spec fn after_early_surrender(
        rules: Rules,
        player_turns: Seq<PendingTurnView>,
        dealer_hand: DealerHandView,
        surrender: bool,
    ) -> GameStateView {
        if surrender {
            GameStateView::RoundOver {
                finished_turns: closed_turns(
                    player_turns.update(
                        0,
                        PendingTurnView {
                            hand: player_turns[0].hand.surrendered(),
                            ..player_turns[0]
                        },
                    ),
                ),
                dealer_hand,
            }
        } else if rules.insurance && dealer_hand.showing() == 11 {
            GameStateView::OfferInsurance { player_turns, dealer_hand }
        } else {
            GameStateView::CheckDealerHoleCard { player_turns, dealer_hand }
        }
    }

    /// After the insurance bet: the turn carries it, cut down to half the
    /// bet of the hand where it is more, and the dealer checks the hole
    /// card.
    pub open spec fn after_insurance(
        player_turns: Seq<PendingTurnView>,
        dealer_hand: DealerHandView,
        insurance_bet: u32,
    ) -> GameStateView {
        let limit = player_turns[0].hand.bet / 2;
        GameStateView::CheckDealerHoleCard {
            player_turns: player_turns.update(
                0,
                PendingTurnView {
                    insurance_bet: if insurance_bet > limit {
                        limit
                    } else {
                        insurance_bet
                    },
                    ..player_turns[0]
                },
            ),
            dealer_hand,
        }
    }

    /// After the check of the hole card: the round is over on a blackjack
    /// of the dealer, else the players are next.
    pub open spec fn after_hole_card_check(
        player_turns: Seq<PendingTurnView>,
        dealer_hand: DealerHandView,
    ) -> GameStateView {
        if dealer_hand.status == Status::Blackjack {
            GameStateView::RoundOver { finished_turns: closed_turns(player_turns), dealer_hand }
        } else {
            Self::player_phase_start(player_turns, dealer_hand)
        }
    }

    /// The start of the players' phase: the last turn is played first.
    /// Without a player the dealer stands and the round is over.
    pub open spec fn player_phase_start(
        player_turns: Seq<PendingTurnView>,
        dealer_hand: DealerHandView,
    ) -> GameStateView {
        if player_turns.len() > 0 {
            Self::player_phase(
                player_turns.drop_last(),
                player_turns.last().active(),
                Seq::empty(),
                dealer_hand,
            )
        } else {
            GameStateView::RoundOver { finished_turns: Seq::empty(), dealer_hand: dealer_hand.stood() }
        }
    }

    /// The players' phase goes on: with the next hand of the current turn
    /// that is in play; with the next turn once the current one has no
    /// such hand; with the dealer once no turn is left.
    pub open spec fn player_phase(
        pending_turns: Seq<PendingTurnView>,
        current_turn: ActiveTurnView,
        finished_turns: Seq<FinishedTurnView>,
        dealer_hand: DealerHandView,
    ) -> GameStateView {
        if current_turn.next_position() < current_turn.hands.len() {
            GameStateView::PlayPlayerTurn {
                pending_turns,
                current_turn: ActiveTurnView {
                    current: current_turn.next_position(),
                    ..current_turn
                },
                finished_turns,
                dealer_hand,
            }
        } else {
            Self::next_turn(
                pending_turns,
                finished_turns.push(current_turn.finished()),
                dealer_hand,
            )
        }
    }

    /// The next turn to play: the last pending one whose hand is in play;
    /// those behind it are finished as they are. With no such turn the
    /// dealer is next.
    pub open spec fn next_turn(
        pending_turns: Seq<PendingTurnView>,
        finished_turns: Seq<FinishedTurnView>,
        dealer_hand: DealerHandView,
    ) -> GameStateView
        decreases pending_turns.len(),
    {
        if pending_turns.len() == 0 {
            Self::dealer_phase(finished_turns, dealer_hand)
        } else if pending_turns.last().hand.status != Status::InPlay {
            Self::next_turn(
                pending_turns.drop_last(),
                finished_turns.push(pending_turns.last().finished()),
                dealer_hand,
            )
        } else {
            GameStateView::PlayPlayerTurn {
                pending_turns: pending_turns.drop_last(),
                current_turn: pending_turns.last().active(),
                finished_turns,
                dealer_hand,
            }
        }
    }

    /// The dealer's phase: the hole card is revealed. Where no player
    /// stood on a hand there is nothing left to beat, and a dealer's hand
    /// that is in play stands as it is.
    pub open spec fn dealer_phase(
        finished_turns: Seq<FinishedTurnView>,
        dealer_hand: DealerHandView,
    ) -> GameStateView {
        GameStateView::RevealHoleCard {
            finished_turns,
            dealer_hand: if dealer_hand.status == Status::InPlay && !any_stood(finished_turns) {
                dealer_hand.stood()
            } else {
                dealer_hand
            },
        }
    }

    /// After the player's action: the state that carries it out, or the
    /// reason why the table does not allow it.
    pub open spec fn after_action(
        rules: Rules,
        pending_turns: Seq<PendingTurnView>,
        current_turn: ActiveTurnView,
        finished_turns: Seq<FinishedTurnView>,
        dealer_hand: DealerHandView,
        action: HandAction,
    ) -> Result<GameStateView, Error> {
        match action {
            HandAction::Hit => Ok(
                GameStateView::PlayerHit { pending_turns, current_turn, finished_turns, dealer_hand },
            ),
            HandAction::Stand => Ok(
                GameStateView::PlayerStand {
                    pending_turns,
                    current_turn,
                    finished_turns,
                    dealer_hand,
                },
            ),
            HandAction::Double => match rules.double_error(current_turn) {
                Some(error) => Err(Error::DoubleError(error)),
                None => Ok(
                    GameStateView::PlayerDouble {
                        pending_turns,
                        current_turn,
                        finished_turns,
                        dealer_hand,
                    },
                ),
            },
            HandAction::Split => match rules.split_error(current_turn) {
                Some(error) => Err(Error::SplitError(error)),
                None => Ok(
                    GameStateView::PlayerSplit {
                        pending_turns,
                        current_turn,
                        finished_turns,
                        dealer_hand,
                    },
                ),
            },
            HandAction::Surrender => match rules.surrender_error(current_turn.current_hand()) {
                Some(error) => Err(Error::SurrenderError(error)),
                None => Ok(
                    GameStateView::PlayerSurrender {
                        pending_turns,
                        current_turn,
                        finished_turns,
                        dealer_hand,
                    },
                ),
            },
        }
    }

    /// After the split: the current hand keeps its first card, and the
    /// new hand of its second card waits beside the turn for its card.
    pub open spec fn after_split(
        pending_turns: Seq<PendingTurnView>,
        current_turn: ActiveTurnView,
        finished_turns: Seq<FinishedTurnView>,
        dealer_hand: DealerHandView,
    ) -> GameStateView {
        GameStateView::DealFirstSplitCard {
            pending_turns,
            current_turn: current_turn.with_current(current_turn.current_hand().split_kept()),
            new_hand: current_turn.current_hand().split_off(),
            finished_turns,
            dealer_hand,
        }
    }

    /// After the reveal of the hole card: the dealer draws while the hand
    /// is in play, else the round is over.
    pub open spec fn after_reveal(
        finished_turns: Seq<FinishedTurnView>,
        dealer_hand: DealerHandView,
    ) -> GameStateView {
        if dealer_hand.status == Status::InPlay {
            GameStateView::PlayDealerTurn { finished_turns, dealer_hand }
        } else {
            GameStateView::RoundOver { finished_turns, dealer_hand }
        }
    }

    /// After the round: for each turn what was bet and what it returns.
    pub open spec fn after_round(
        rules: Rules,
        finished_turns: Seq<FinishedTurnView>,
        dealer_hand: DealerHandView,
    ) -> GameStateView {
        GameStateView::Payout {
            total_bets: finished_turns.map_values(|turn: FinishedTurnView| turn.total_bet() as u32),
            winnings: finished_turns.map_values(
                |turn: FinishedTurnView| turn.winnings(dealer_hand, rules.blackjack_payout) as u32,
            ),
        }
    }

    /// The state after one transition. `input` is what the player put in,
    /// `card` is the card that was dealt where the transition deals one,
    /// and `shuffle_due` says whether the shoe has been played as far as
    /// its penetration. An input that the state does not wait for, or that
    /// the table does not allow, gives the error, and the state stays.
    pub open spec fn step(
        self,
        rules: Rules,
        input: Option<Input>,
        card: Card,
        shuffle_due: bool,
    ) -> Result<GameStateView, Error> {
        if !self.accepts(input) {
            Err(Error::WrongInput)
        } else {
            match self {
                GameStateView::Betting => Self::after_bet(rules, input->0->Bet_0),
                GameStateView::DealFirstPlayerCards { bets, player_turns } => Ok(
                    Self::after_first_player_card(bets, player_turns, card),
                ),
                GameStateView::DealFirstDealerCard { player_turns } => Ok(
                    Self::after_first_dealer_card(rules, player_turns, card),
                ),
                GameStateView::DealSecondPlayerCards { player_turns, dealer_hand } => Ok(
                    Self::after_second_player_card(player_turns, dealer_hand, card),
                ),
                GameStateView::DealHoleCard { player_turns, dealer_hand } => Ok(
                    Self::after_hole_card(rules, player_turns, dealer_hand, card),
                ),
                GameStateView::OfferEarlySurrender { player_turns, dealer_hand } => Ok(
                    Self::after_early_surrender(
                        rules,
                        player_turns,
                        dealer_hand,
                        input->0->Choice_0,
                    ),
                ),
                GameStateView::OfferInsurance { player_turns, dealer_hand } => Ok(
                    Self::after_insurance(player_turns, dealer_hand, input->0->Bet_0),
                ),
                GameStateView::CheckDealerHoleCard { player_turns, dealer_hand } => Ok(
                    Self::after_hole_card_check(player_turns, dealer_hand),
                ),
                GameStateView::PlayPlayerTurn {
                    pending_turns,
                    current_turn,
                    finished_turns,
                    dealer_hand,
                } => Self::after_action(
                    rules,
                    pending_turns,
                    current_turn,
                    finished_turns,
                    dealer_hand,
                    input->0->Action_0,
                ),
                GameStateView::PlayerStand {
                    pending_turns,
                    current_turn,
                    finished_turns,
                    dealer_hand,
                } => Ok(
                    Self::player_phase(
                        pending_turns,
                        current_turn.with_current(current_turn.current_hand().stood()),
                        finished_turns,
                        dealer_hand,
                    ),
                ),
                GameStateView::PlayerHit {
                    pending_turns,
                    current_turn,
                    finished_turns,
                    dealer_hand,
                } => Ok(
                    Self::player_phase(
                        pending_turns,
                        current_turn.with_current(current_turn.current_hand().with_card(card)),
                        finished_turns,
                        dealer_hand,
                    ),
                ),
                GameStateView::PlayerDouble {
                    pending_turns,
                    current_turn,
                    finished_turns,
                    dealer_hand,
                } => Ok(
                    Self::player_phase(
                        pending_turns,
                        current_turn.with_current(current_turn.current_hand().doubled(card)),
                        finished_turns,
                        dealer_hand,
                    ),
                ),
                GameStateView::PlayerSplit {
                    pending_turns,
                    current_turn,
                    finished_turns,
                    dealer_hand,
                } => Ok(Self::after_split(pending_turns, current_turn, finished_turns, dealer_hand)),
                GameStateView::DealFirstSplitCard {
                    pending_turns,
                    current_turn,
                    new_hand,
                    finished_turns,
                    dealer_hand,
                } => Ok(
                    GameStateView::DealSecondSplitCard {
                        pending_turns,
                        current_turn: current_turn.with_current(
                            current_turn.current_hand().with_card(card),
                        ),
                        new_hand,
                        finished_turns,
                        dealer_hand,
                    },
                ),
                GameStateView::DealSecondSplitCard {
                    pending_turns,
                    current_turn,
                    new_hand,
                    finished_turns,
                    dealer_hand,
                } => Ok(
                    Self::player_phase(
                        pending_turns,
                        current_turn.deferred(new_hand.with_card(card)),
                        finished_turns,
                        dealer_hand,
                    ),
                ),
                GameStateView::PlayerSurrender {
                    pending_turns,
                    current_turn,
                    finished_turns,
                    dealer_hand,
                } => Ok(
                    Self::player_phase(
                        pending_turns,
                        current_turn.with_current(current_turn.current_hand().surrendered()),
                        finished_turns,
                        dealer_hand,
                    ),
                ),
                GameStateView::RevealHoleCard { finished_turns, dealer_hand } => Ok(
                    Self::after_reveal(finished_turns, dealer_hand),
                ),
                GameStateView::PlayDealerTurn { finished_turns, dealer_hand } => Ok(
                    Self::after_reveal(finished_turns, dealer_hand.with_card(card)),
                ),
                GameStateView::RoundOver { finished_turns, dealer_hand } => Ok(
                    Self::after_round(rules, finished_turns, dealer_hand),
                ),
                GameStateView::Payout { .. } => Ok(
                    if shuffle_due {
                        GameStateView::Shuffle
                    } else {
                        GameStateView::Betting
                    },
                ),
                GameStateView::Shuffle => Ok(GameStateView::Betting),
            }
        }
    }

    /// Why the state refuses the input, if it does: the input is not of
    /// the kind that the state waits for, the bet is outside the limits of
    /// the table, or the table does not allow the action on the current
    /// hand.
    pub open spec fn refusal(self, rules: Rules, input: Option<Input>) -> Option<Error> {
        if !self.accepts(input) {
            Some(Error::WrongInput)
        } else {
            match self {
                GameStateView::Betting => match rules.bet_error(input->0->Bet_0) {
                    Some(error) => Some(Error::BetError(error)),
                    None => None,
                },
                GameStateView::PlayPlayerTurn { current_turn, .. } => match input->0->Action_0 {
                    HandAction::Double => match rules.double_error(current_turn) {
                        Some(error) => Some(Error::DoubleError(error)),
                        None => None,
                    },
                    HandAction::Split => match rules.split_error(current_turn) {
                        Some(error) => Some(Error::SplitError(error)),
                        None => None,
                    },
                    HandAction::Surrender => match rules.surrender_error(
                        current_turn.current_hand(),
                    ) {
                        Some(error) => Some(Error::SurrenderError(error)),
                        None => None,
                    },
                    _ => None,
                },
                _ => None,
            }
        }
    }

    /// One player sits at the table, with one turn that is well formed.
    pub open spec fn one_turn(player_turns: Seq<PendingTurnView>) -> bool {
        player_turns.len() == 1 && player_turns[0].wf()
    }

    /// The dealer's hand after both cards have been dealt.
    pub open spec fn dealt(dealer_hand: DealerHandView) -> bool {
        dealer_hand.wf() && dealer_hand.cards.len() == 2
    }

    /// Every turn that waits is well formed.
    pub open spec fn waiting(pending_turns: Seq<PendingTurnView>) -> bool {
        forall|i: int| 0 <= i < pending_turns.len() ==> (#[trigger] pending_turns[i]).wf()
    }

    /// Every turn that has finished is well formed.
    pub open spec fn played(finished_turns: Seq<FinishedTurnView>) -> bool {
        forall|i: int| 0 <= i < finished_turns.len() ==> (#[trigger] finished_turns[i]).wf()
    }

    /// The players' phase is under way: the turns that wait, the turn
    /// that is played and the turns that have finished are well formed,
    /// and the dealer holds both cards.
    pub open spec fn in_players_phase(
        pending_turns: Seq<PendingTurnView>,
        current_turn: ActiveTurnView,
        finished_turns: Seq<FinishedTurnView>,
        dealer_hand: DealerHandView,
    ) -> bool {
        &&& Self::waiting(pending_turns)
        &&& Self::played(finished_turns)
        &&& current_turn.wf()
        &&& Self::dealt(dealer_hand)
    }

    /// A turn is being played: the players' phase is under way and the
    /// current hand is in play.
    pub open spec fn playing(
        pending_turns: Seq<PendingTurnView>,
        current_turn: ActiveTurnView,
        finished_turns: Seq<FinishedTurnView>,
        dealer_hand: DealerHandView,
    ) -> bool {
        &&& Self::in_players_phase(pending_turns, current_turn, finished_turns, dealer_hand)
        &&& current_turn.current_hand().status == Status::InPlay
    }

    /// The dealer's phase is under way: the turns are finished and well
    /// formed, and the dealer holds two cards at least.
    pub open spec fn in_dealers_phase(
        finished_turns: Seq<FinishedTurnView>,
        dealer_hand: DealerHandView,
    ) -> bool {
        &&& Self::played(finished_turns)
        &&& dealer_hand.wf()
        &&& dealer_hand.cards.len() >= 2
    }

    /// The turn can take one more bet as large as that of `hand`.
    pub open spec fn has_room(current_turn: ActiveTurnView, hand: PlayerHandView) -> bool {
        stake(current_turn.hands) + hand.bet <= MAX_STAKE
    }

    /// The states that a round goes through: all hands and turns are well
    /// formed and hold the cards that the state stands for. The cards are
    /// dealt to one player, and the offers are made to one; from then on
    /// any number of turns may wait and have finished.
    pub open spec fn wf(self) -> bool {
        match self {
            GameStateView::Betting => true,
            GameStateView::DealFirstPlayerCards { bets, player_turns } => {
                bets.len() == 1 && player_turns.len() == 0 && bets[0] <= MAX_STAKE
            },
            GameStateView::DealFirstDealerCard { player_turns } => {
                &&& Self::one_turn(player_turns)
                &&& player_turns[0].hand.cards.len() == 1
                &&& player_turns[0].hand.status == Status::InPlay
            },
            GameStateView::DealSecondPlayerCards { player_turns, dealer_hand } => {
                &&& Self::one_turn(player_turns)
                &&& 1 <= player_turns[0].hand.cards.len() <= 2
                &&& player_turns[0].hand.cards.len() == 1 ==> player_turns[0].hand.status
                    == Status::InPlay
                &&& player_turns[0].hand.status == Status::InPlay || player_turns[0].hand.status
                    == Status::Blackjack
                &&& dealer_hand.wf()
                &&& dealer_hand.cards.len() == 1
                &&& dealer_hand.status == Status::InPlay
            },
            GameStateView::DealHoleCard { player_turns, dealer_hand } => {
                &&& Self::one_turn(player_turns)
                &&& player_turns[0].hand.cards.len() == 2
                &&& player_turns[0].hand.status == Status::InPlay || player_turns[0].hand.status
                    == Status::Blackjack
                &&& dealer_hand.wf()
                &&& dealer_hand.cards.len() == 1
                &&& dealer_hand.status == Status::InPlay
            },
            GameStateView::OfferEarlySurrender { player_turns, dealer_hand }
            | GameStateView::OfferInsurance { player_turns, dealer_hand }
            | GameStateView::CheckDealerHoleCard { player_turns, dealer_hand } => {
                &&& Self::one_turn(player_turns)
                &&& player_turns[0].hand.cards.len() == 2
                &&& player_turns[0].hand.status == Status::InPlay
                &&& Self::dealt(dealer_hand)
            },
            GameStateView::PlayPlayerTurn {
                pending_turns,
                current_turn,
                finished_turns,
                dealer_hand,
            }
            | GameStateView::PlayerStand { pending_turns, current_turn, finished_turns, dealer_hand }
            | GameStateView::PlayerHit {
                pending_turns,
                current_turn,
                finished_turns,
                dealer_hand,
            } => Self::playing(pending_turns, current_turn, finished_turns, dealer_hand),
            GameStateView::PlayerSurrender {
                pending_turns,
                current_turn,
                finished_turns,
                dealer_hand,
            } => {
                &&& Self::playing(pending_turns, current_turn, finished_turns, dealer_hand)
                &&& current_turn.current_hand().cards.len() == 2
            },
            GameStateView::PlayerDouble {
                pending_turns,
                current_turn,
                finished_turns,
                dealer_hand,
            } => {
                &&& Self::playing(pending_turns, current_turn, finished_turns, dealer_hand)
                &&& current_turn.current_hand().cards.len() == 2
                &&& Self::has_room(current_turn, current_turn.current_hand())
            },
            GameStateView::PlayerSplit {
                pending_turns,
                current_turn,
                finished_turns,
                dealer_hand,
            } => {
                &&& Self::playing(pending_turns, current_turn, finished_turns, dealer_hand)
                &&& current_turn.current_hand().is_pair()
                &&& Self::has_room(current_turn, current_turn.current_hand())
            },
            GameStateView::DealFirstSplitCard {
                pending_turns,
                current_turn,
                new_hand,
                finished_turns,
                dealer_hand,
            } => {
                &&& Self::playing(pending_turns, current_turn, finished_turns, dealer_hand)
                &&& new_hand.wf()
                &&& new_hand.status == Status::InPlay
                &&& Self::has_room(current_turn, new_hand)
            },
            GameStateView::DealSecondSplitCard {
                pending_turns,
                current_turn,
                new_hand,
                finished_turns,
                dealer_hand,
            } => {
                &&& Self::in_players_phase(pending_turns, current_turn, finished_turns, dealer_hand)
                &&& new_hand.wf()
                &&& new_hand.status == Status::InPlay
                &&& Self::has_room(current_turn, new_hand)
            },
            GameStateView::RevealHoleCard { finished_turns, dealer_hand }
            | GameStateView::RoundOver { finished_turns, dealer_hand } => Self::in_dealers_phase(
                finished_turns,
                dealer_hand,
            ),
            GameStateView::PlayDealerTurn { finished_turns, dealer_hand } => {
                &&& Self::in_dealers_phase(finished_turns, dealer_hand)
                &&& dealer_hand.status == Status::InPlay
            },
            GameStateView::Payout { .. } => true,
            GameStateView::Shuffle => true,
        }
    }

    /// Whether the numbers of the round stay within `u32` under the
    /// input: a bet is at most [`MAX_STAKE`], and so are the bets of the
    /// turn together after a double or a split.
    pub open spec fn within_limits(self, input: Option<Input>) -> bool {
        match self {
            GameStateView::Betting => input matches Some(Input::Bet(bet)) ==> bet <= MAX_STAKE,
            GameStateView::PlayPlayerTurn { current_turn, .. } => {
                input matches Some(Input::Action(action)) ==> (action == HandAction::Double
                    || action == HandAction::Split) ==> Self::has_room(
                    current_turn,
                    current_turn.current_hand(),
                )
            },
            _ => true,
        }
    }
}

/// A card for the transitions that deal none.
pub open spec fn no_card() -> Card {
    Card { rank: Rank::Two, suit: Suit::Clubs }
}

/// The card that was dealt, or [`no_card`].
pub open spec fn dealt_card(card: Option<Card>) -> Card {
    match card {
        Some(card) => card,
        None => no_card(),
    }
}

impl GameStateView {
    /// How far a state is from the next state that waits for the player,
    /// at most: every transition of a state that does not wait leads to
    /// a state that waits or to one of a lower rank. A dealer's hand in
    /// play ranks the lower the more its cards count.
    pub open spec fn rank(self) -> nat {
        match self {
            GameStateView::Betting => 0,
            GameStateView::OfferEarlySurrender { .. } => 0,
            GameStateView::OfferInsurance { .. } => 0,
            GameStateView::PlayPlayerTurn { .. } => 0,
            GameStateView::Shuffle => 1,
            GameStateView::Payout { .. } => 2,
            GameStateView::RoundOver { .. } => 3,
            GameStateView::PlayDealerTurn { dealer_hand, .. } => (35 - hard_total(
                dealer_hand.cards,
            )) as nat,
            GameStateView::RevealHoleCard { .. } => 40,
            GameStateView::PlayerStand { .. } => 41,
            GameStateView::PlayerHit { .. } => 41,
            GameStateView::PlayerDouble { .. } => 41,
            GameStateView::PlayerSurrender { .. } => 41,
            GameStateView::DealSecondSplitCard { .. } => 42,
            GameStateView::DealFirstSplitCard { .. } => 43,
            GameStateView::PlayerSplit { .. } => 44,
            GameStateView::CheckDealerHoleCard { .. } => 45,
            GameStateView::DealHoleCard { .. } => 46,
            GameStateView::DealSecondPlayerCards { player_turns, .. } => (49
                - player_turns[0].hand.cards.len()) as nat,
            GameStateView::DealFirstDealerCard { .. } => 49,
            GameStateView::DealFirstPlayerCards { .. } => 50,
        }
    }

    /// A state that the player's phase can lead to: a hand to play, or
    /// the reveal of the hole card.
    pub open spec fn in_or_after_play(self) -> bool {
        self is PlayPlayerTurn || self is RevealHoleCard
    }
}

/// What the contracts say of a table.
pub struct TableView {
    pub shoe: ShoeView,
    pub rules: Rules,
    pub statistics: Statistics,
    pub fast_forward: bool,
}

impl TableView {
    /// The table after one transition from `state`: a card that is dealt
    /// has left the shoe, a finished round is in the statistics, and a
    /// shoe that is shuffled is full again.
    pub open spec fn after_step(self, state: GameStateView, card: Card) -> TableView {
        TableView {
            shoe: if state.deals_card() {
                self.shoe.after_draw(card)
            } else if state is Shuffle {
                ShoeView::full(self.shoe.decks, self.shoe.max_penetration)
            } else {
                self.shoe
            },
            statistics: match state {
                GameStateView::RoundOver { finished_turns, dealer_hand } => {
                    self.statistics.with_round(finished_turns, dealer_hand, self.rules.blackjack_payout)
                },
                _ => self.statistics,
            },
            ..self
        }
    }

    /// Whether `after` is the table and the state that come of the
    /// transition from `state` with `input`, which dealt `card` where it
    /// deals a card, and of `count` transitions more.
    pub open spec fn plays_to(
        self,
        state: GameStateView,
        input: Option<Input>,
        card: Card,
        count: nat,
        after: (TableView, GameStateView),
    ) -> bool {
        &&& state.deals_card() ==> self.shoe.holds(card)
        &&& state.step(self.rules, input, card, self.shoe.needs_shuffle()) matches Ok(first)
            && self.after_step(state, card).leads_to(first, count, after)
    }

    /// Whether `after` is the table and the state that `count` transitions
    /// lead to from the table `self` in state `state`, one at a time,
    /// each from a state that does not wait for the player and each with
    /// a card that the shoe holds where it deals one.
    pub open spec fn leads_to(
        self,
        state: GameStateView,
        count: nat,
        after: (TableView, GameStateView),
    ) -> bool
        decreases count,
    {
        if count == 0 {
            after == (self, state)
        } else {
            exists|table: TableView, before: GameStateView, card: Card|
                {
                    &&& self.leads_to(state, (count - 1) as nat, (table, before))
                    &&& !before.awaits_input()
                    &&& before.deals_card() ==> table.shoe.holds(card)
                    &&& #[trigger] before.step(
                        table.rules,
                        None,
                        card,
                        table.shoe.needs_shuffle(),
                    ) == Ok::<GameStateView, Error>(after.1)
                    &&& after.0 == table.after_step(before, card)
                }
        }
    }
}

/// Only the transition after the payout looks at whether a shuffle is due.
pub proof fn lemma_step_without_shuffle(
    state: GameStateView,
    rules: Rules,
    input: Option<Input>,
    card: Card,
    due: bool,
    other: bool,
)
    requires
        state is Payout ==> due == other,
    ensures
        state.step(rules, input, card, due) == state.step(rules, input, card, other),
{
}

/// A transition fails where the state refuses the input, with that
/// error, and nowhere else, whatever card is dealt.
pub proof fn lemma_step_refusal(
    state: GameStateView,
    rules: Rules,
    input: Option<Input>,
    card: Card,
    due: bool,
)
    ensures
        match state.step(rules, input, card, due) {
            Ok(_) => state.refusal(rules, input) is None,
            Err(error) => state.refusal(rules, input) == Some(error),
        },
{
}

/// A state that does not wait for the player refuses no input.
pub proof fn lemma_step_without_input(
    state: GameStateView,
    rules: Rules,
    input: Option<Input>,
    card: Card,
    due: bool,
)
    requires
        !state.awaits_input(),
    ensures
        state.step(rules, input, card, due) is Ok,
        state.step(rules, input, card, due) == state.step(rules, None, card, due),
        state.within_limits(input),
{
}

/// Whether one of the turns holds the hand.
pub open spec fn pending_hold(turns: Seq<PendingTurnView>, hand: PlayerHandView) -> bool {
    exists|i: int| 0 <= i < turns.len() && (#[trigger] turns[i]).hand == hand
}

/// Whether one of the turns holds the hand.
pub open spec fn finished_hold(turns: Seq<FinishedTurnView>, hand: PlayerHandView) -> bool {
    exists|i: int| 0 <= i < turns.len() && (#[trigger] turns[i]).hands.contains(hand)
}

impl GameStateView {
    /// Whether the hand is one of the hands of the players in the state.
    pub open spec fn holds_hand(self, hand: PlayerHandView) -> bool {
        match self {
            GameStateView::DealFirstPlayerCards { player_turns, .. }
            | GameStateView::DealFirstDealerCard { player_turns }
            | GameStateView::DealSecondPlayerCards { player_turns, .. }
            | GameStateView::DealHoleCard { player_turns, .. }
            | GameStateView::OfferEarlySurrender { player_turns, .. }
            | GameStateView::OfferInsurance { player_turns, .. }
            | GameStateView::CheckDealerHoleCard { player_turns, .. } => pending_hold(
                player_turns,
                hand,
            ),
            GameStateView::PlayPlayerTurn { pending_turns, current_turn, finished_turns, .. }
            | GameStateView::PlayerStand { pending_turns, current_turn, finished_turns, .. }
            | GameStateView::PlayerHit { pending_turns, current_turn, finished_turns, .. }
            | GameStateView::PlayerDouble { pending_turns, current_turn, finished_turns, .. }
            | GameStateView::PlayerSplit { pending_turns, current_turn, finished_turns, .. }
            | GameStateView::PlayerSurrender { pending_turns, current_turn, finished_turns, .. } => {
                ||| pending_hold(pending_turns, hand)
                ||| current_turn.hands.contains(hand)
                ||| finished_hold(finished_turns, hand)
            },
            GameStateView::DealFirstSplitCard {
                pending_turns,
                current_turn,
                new_hand,
                finished_turns,
                ..
            }
            | GameStateView::DealSecondSplitCard {
                pending_turns,
                current_turn,
                new_hand,
                finished_turns,
                ..
            } => {
                ||| pending_hold(pending_turns, hand)
                ||| current_turn.hands.contains(hand)
                ||| new_hand == hand
                ||| finished_hold(finished_turns, hand)
            },
            GameStateView::RevealHoleCard { finished_turns, .. }
            | GameStateView::PlayDealerTurn { finished_turns, .. }
            | GameStateView::RoundOver { finished_turns, .. } => finished_hold(
                finished_turns,
                hand,
            ),
            _ => false,
        }
    }

    /// The hand of the dealer, in the states that have one.
    pub open spec fn dealer(self) -> Option<DealerHandView> {
        match self {
            GameStateView::DealSecondPlayerCards { dealer_hand, .. }
            | GameStateView::DealHoleCard { dealer_hand, .. }
            | GameStateView::OfferEarlySurrender { dealer_hand, .. }
            | GameStateView::OfferInsurance { dealer_hand, .. }
            | GameStateView::CheckDealerHoleCard { dealer_hand, .. }
            | GameStateView::PlayPlayerTurn { dealer_hand, .. }
            | GameStateView::PlayerStand { dealer_hand, .. }
            | GameStateView::PlayerHit { dealer_hand, .. }
            | GameStateView::PlayerDouble { dealer_hand, .. }
            | GameStateView::PlayerSplit { dealer_hand, .. }
            | GameStateView::DealFirstSplitCard { dealer_hand, .. }
            | GameStateView::DealSecondSplitCard { dealer_hand, .. }
            | GameStateView::PlayerSurrender { dealer_hand, .. }
            | GameStateView::RevealHoleCard { dealer_hand, .. }
            | GameStateView::PlayDealerTurn { dealer_hand, .. }
            | GameStateView::RoundOver { dealer_hand, .. } => Some(dealer_hand),
            _ => None,
        }
    }
}

/// Going on to the next turn keeps every hand of the turns that wait and
/// of those that have finished, and keeps the dealer's hand where it has
/// ended.
proof fn lemma_next_turn_keeps_hands(
    pending_turns: Seq<PendingTurnView>,
    finished_turns: Seq<FinishedTurnView>,
    dealer_hand: DealerHandView,
    hand: PlayerHandView,
)
    ensures
        pending_hold(pending_turns, hand) || finished_hold(finished_turns, hand)
            ==> GameStateView::next_turn(pending_turns, finished_turns, dealer_hand).holds_hand(
            hand,
        ),
        GameStateView::next_turn(pending_turns, finished_turns, dealer_hand).dealer() matches Some(
            dealer,
        ) && (dealer_hand.status.terminal() ==> dealer == dealer_hand),
    decreases pending_turns.len(),
{
    if pending_turns.len() > 0 {
        let last = pending_turns.last();
        let rest = pending_turns.drop_last();
        if pending_hold(pending_turns, hand) {
            let i = choose|i: int| 0 <= i < pending_turns.len() && pending_turns[i].hand == hand;
            if i < rest.len() {
                assert(rest[i].hand == hand);
            } else {
                assert(last.hand == hand);
            }
        }
        if last.hand.status != Status::InPlay {
            let done = finished_turns.push(last.finished());
            if finished_hold(finished_turns, hand) {
                let t = choose|t: int|
                    0 <= t < finished_turns.len() && finished_turns[t].hands.contains(hand);
                assert(done[t].hands.contains(hand));
            }
            if last.hand == hand {
                assert(done[done.len() - 1].hands[0] == hand);
                assert(done[done.len() - 1].hands.contains(hand));
            }
            lemma_next_turn_keeps_hands(rest, done, dealer_hand, hand);
        } else {
            if last.hand == hand {
                assert(last.active().hands[0] == hand);
            }
        }
    }
}

/// The players' phase keeps every hand of the turns that wait, of the
/// current turn and of the turns that have finished, and keeps the
/// dealer's hand where it has ended.
proof fn lemma_player_phase_keeps_hands(
    pending_turns: Seq<PendingTurnView>,
    current_turn: ActiveTurnView,
    finished_turns: Seq<FinishedTurnView>,
    dealer_hand: DealerHandView,
    hand: PlayerHandView,
)
    ensures
        pending_hold(pending_turns, hand) || current_turn.hands.contains(hand) || finished_hold(
            finished_turns,
            hand,
        ) ==> GameStateView::player_phase(
            pending_turns,
            current_turn,
            finished_turns,
            dealer_hand,
        ).holds_hand(hand),
        GameStateView::player_phase(
            pending_turns,
            current_turn,
            finished_turns,
            dealer_hand,
        ).dealer() matches Some(dealer) && (dealer_hand.status.terminal() ==> dealer
            == dealer_hand),
{
    let done = finished_turns.push(current_turn.finished());
    if finished_hold(finished_turns, hand) {
        let t = choose|t: int|
            0 <= t < finished_turns.len() && finished_turns[t].hands.contains(hand);
        assert(done[t].hands.contains(hand));
    }
    if current_turn.hands.contains(hand) {
        assert(done[done.len() - 1].hands.contains(hand));
    }
    lemma_next_turn_keeps_hands(pending_turns, done, dealer_hand, hand);
}

/// A hand that has ended is never changed: it is in the next state as it
/// is in this one, whatever the transition. The same holds of the hand of
/// the dealer. (The transition from the end of the round to the payout
/// keeps no hands.)
pub proof fn lemma_finished_hands_stay(
    state: GameStateView,
    rules: Rules,
    input: Option<Input>,
    card: Card,
    due: bool,
    hand: PlayerHandView,
)
    requires
        state.wf(),
        state.step(rules, input, card, due) is Ok,
        !(state is RoundOver),
    ensures
        state.holds_hand(hand) && hand.status.terminal() ==> state.step(
            rules,
            input,
            card,
            due,
        )->Ok_0.holds_hand(hand),
        state.dealer() matches Some(dealer) ==> (dealer.status.terminal() ==> state.step(
            rules,
            input,
            card,
            due,
        )->Ok_0.dealer() == Some(dealer)),
{
    let next = state.step(rules, input, card, due)->Ok_0;
    match state {
        GameStateView::DealSecondPlayerCards { player_turns, dealer_hand } => {
            if pending_hold(player_turns, hand) && hand.status.terminal() {
                assert(player_turns[0].hand == hand);
                assert(first_single(player_turns, 1) == 1);
                assert(first_single(player_turns, 0) == 1);
            }
        },
        GameStateView::DealHoleCard { player_turns, dealer_hand } => {
            if pending_hold(player_turns, hand) {
                assert(player_turns[0].active().hands[0] == hand);
            }
            lemma_player_phase_keeps_hands(
                player_turns.drop_last(),
                player_turns.last().active(),
                Seq::empty(),
                dealer_hand.with_card(card),
                hand,
            );
        },
        GameStateView::CheckDealerHoleCard { player_turns, dealer_hand } => {
            lemma_player_phase_keeps_hands(
                player_turns.drop_last(),
                player_turns.last().active(),
                Seq::empty(),
                dealer_hand,
                hand,
            );
        },
        GameStateView::PlayerStand { pending_turns, current_turn, finished_turns, dealer_hand } => {
            lemma_turn_keeps_other_hands(
                pending_turns,
                current_turn,
                finished_turns,
                dealer_hand,
                current_turn.current_hand().stood(),
                hand,
            );
        },
        GameStateView::PlayerHit { pending_turns, current_turn, finished_turns, dealer_hand } => {
            lemma_turn_keeps_other_hands(
                pending_turns,
                current_turn,
                finished_turns,
                dealer_hand,
                current_turn.current_hand().with_card(card),
                hand,
            );
        },
        GameStateView::PlayerDouble { pending_turns, current_turn, finished_turns, dealer_hand } => {
            lemma_turn_keeps_other_hands(
                pending_turns,
                current_turn,
                finished_turns,
                dealer_hand,
                current_turn.current_hand().doubled(card),
                hand,
            );
        },
        GameStateView::PlayerSurrender {
            pending_turns,
            current_turn,
            finished_turns,
            dealer_hand,
        } => {
            lemma_turn_keeps_other_hands(
                pending_turns,
                current_turn,
                finished_turns,
                dealer_hand,
                current_turn.current_hand().surrendered(),
                hand,
            );
        },
        GameStateView::PlayerSplit { pending_turns, current_turn, finished_turns, dealer_hand } => {
            if current_turn.hands.contains(hand) && hand.status.terminal() {
                let i = choose|i: int| 0 <= i < current_turn.hands.len() && current_turn.hands[i] == hand;
                assert(current_turn.with_current(current_turn.current_hand().split_kept()).hands[i]
                    == hand);
            }
        },
        GameStateView::DealFirstSplitCard {
            pending_turns,
            current_turn,
            new_hand,
            finished_turns,
            dealer_hand,
        } => {
            if current_turn.hands.contains(hand) && hand.status.terminal() {
                let i = choose|i: int| 0 <= i < current_turn.hands.len() && current_turn.hands[i] == hand;
                assert(current_turn.with_current(current_turn.current_hand().with_card(card)).hands[i]
                    == hand);
            }
        },
        GameStateView::DealSecondSplitCard {
            pending_turns,
            current_turn,
            new_hand,
            finished_turns,
            dealer_hand,
        } => {
            let after = current_turn.deferred(new_hand.with_card(card));
            if current_turn.hands.contains(hand) {
                let i = choose|i: int|
                    0 <= i < current_turn.hands.len() && current_turn.hands[i] == hand;
                assert(after.hands[i] == hand);
            }
            lemma_player_phase_keeps_hands(
                pending_turns,
                after,
                finished_turns,
                dealer_hand,
                hand,
            );
        },
        _ => {},
    }
}

/// Putting another hand in the place of the current hand, which is in
/// play, and going on with the players' phase keeps every hand that has
/// ended.
proof fn lemma_turn_keeps_other_hands(
    pending_turns: Seq<PendingTurnView>,
    current_turn: ActiveTurnView,
    finished_turns: Seq<FinishedTurnView>,
    dealer_hand: DealerHandView,
    played: PlayerHandView,
    hand: PlayerHandView,
)
    requires
        GameStateView::playing(pending_turns, current_turn, finished_turns, dealer_hand),
    ensures
        (pending_hold(pending_turns, hand) || current_turn.hands.contains(hand) || finished_hold(
            finished_turns,
            hand,
        )) && hand.status.terminal() ==> GameStateView::player_phase(
            pending_turns,
            current_turn.with_current(played),
            finished_turns,
            dealer_hand,
        ).holds_hand(hand),
        GameStateView::player_phase(
            pending_turns,
            current_turn.with_current(played),
            finished_turns,
            dealer_hand,
        ).dealer() matches Some(dealer) && (dealer_hand.status.terminal() ==> dealer
            == dealer_hand),
{
    let after = current_turn.with_current(played);
    if current_turn.hands.contains(hand) && hand.status.terminal() {
        let i = choose|i: int| 0 <= i < current_turn.hands.len() && current_turn.hands[i] == hand;
        assert(after.hands[i] == hand);
    }
    lemma_player_phase_keeps_hands(pending_turns, after, finished_turns, dealer_hand, hand);
}

} // verus!
