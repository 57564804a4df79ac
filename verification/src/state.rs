//! The states of a round of blackjack.
use crate::card::hand::{
    ActiveTurn, ActiveTurnView, DealerHand, DealerHandView, FinishedTurn, FinishedTurnView,
    PendingTurn, PendingTurnView, PlayerHand, PlayerHandView,
};
use vstd::prelude::*;

verus! {

/// The state of a round of Blackjack.
/// This includes the betting phase, which is before the round starts.
#[derive(Debug, PartialEq, Eq)]
pub enum GameState {
    /// The round has not yet started. The players are placing their bets.
    Betting,
    /// The dealer is dealing the first cards to the players.
    /// Each player has placed a bet and will receive a hand one by one.
    /// The bets vector starts full and is emptied as the players are dealt their hands.
    /// The player_turns vector starts empty and is filled as the players are dealt their hands.
    DealFirstPlayerCards { bets: Vec<u32>, player_turns: Vec<PendingTurn> },
    /// The dealer is dealing the first card to themselves.
    DealFirstDealerCard { player_turns: Vec<PendingTurn> },
    /// The dealer is dealing the second card to the player.
    DealSecondPlayerCards { player_turns: Vec<PendingTurn>, dealer_hand: DealerHand },
    /// The dealer deals the hole card to themselves.
    DealHoleCard { player_turns: Vec<PendingTurn>, dealer_hand: DealerHand },
    /// The dealer is showing an ace or ten.
    /// The players have a chance to surrender before the dealer checks for blackjack.
    OfferEarlySurrender { player_turns: Vec<PendingTurn>, dealer_hand: DealerHand },
    /// The dealer has an ace showing and offers the players insurance.
    OfferInsurance { player_turns: Vec<PendingTurn>, dealer_hand: DealerHand },
    /// The dealer checks their hole card to see if they have blackjack.
    CheckDealerHoleCard { player_turns: Vec<PendingTurn>, dealer_hand: DealerHand },
    /// The players are playing their hands.
    /// `current_turn` is the turn of the player whose move it is.
    /// `finished_turns` is the list of turns which are no longer in play.
    /// `pending_turns` is the list of turns which have not yet been played.
    PlayPlayerTurn {
        pending_turns: Vec<PendingTurn>,
        current_turn: ActiveTurn,
        finished_turns: Vec<FinishedTurn>,
        dealer_hand: DealerHand,
    },
    /// The player chooses to stand on their current hand.
    PlayerStand {
        pending_turns: Vec<PendingTurn>,
        current_turn: ActiveTurn,
        finished_turns: Vec<FinishedTurn>,
        dealer_hand: DealerHand,
    },
    /// The player chooses to hit on their current hand.
    PlayerHit {
        pending_turns: Vec<PendingTurn>,
        current_turn: ActiveTurn,
        finished_turns: Vec<FinishedTurn>,
        dealer_hand: DealerHand,
    },
    /// The player chooses to double down on their current hand.
    PlayerDouble {
        pending_turns: Vec<PendingTurn>,
        current_turn: ActiveTurn,
        finished_turns: Vec<FinishedTurn>,
        dealer_hand: DealerHand,
    },
    /// The player chooses to split their current hand.
    PlayerSplit {
        pending_turns: Vec<PendingTurn>,
        current_turn: ActiveTurn,
        finished_turns: Vec<FinishedTurn>,
        dealer_hand: DealerHand,
    },
    /// The dealer is dealing the first card to the hand that was split.
    DealFirstSplitCard {
        pending_turns: Vec<PendingTurn>,
        current_turn: ActiveTurn,
        new_hand: PlayerHand,
        finished_turns: Vec<FinishedTurn>,
        dealer_hand: DealerHand,
    },
    /// The dealer has dealt the first card to the split hand, and is now dealing the second card.
    DealSecondSplitCard {
        pending_turns: Vec<PendingTurn>,
        current_turn: ActiveTurn,
        new_hand: PlayerHand,
        finished_turns: Vec<FinishedTurn>,
        dealer_hand: DealerHand,
    },
    /// The player chooses to surrender (late) on their current hand.
    PlayerSurrender {
        pending_turns: Vec<PendingTurn>,
        current_turn: ActiveTurn,
        finished_turns: Vec<FinishedTurn>,
        dealer_hand: DealerHand,
    },
    /// The dealer reveals their hole card.
    RevealHoleCard { finished_turns: Vec<FinishedTurn>, dealer_hand: DealerHand },
    /// The dealer draws a card.
    PlayDealerTurn { finished_turns: Vec<FinishedTurn>, dealer_hand: DealerHand },
    /// The dealer has finished playing and the round is over.
    RoundOver { finished_turns: Vec<FinishedTurn>, dealer_hand: DealerHand },
    /// The dealer is paying out the winnings.
    /// The indices of the total_bets and winnings vectors correspond to the players.
    Payout { total_bets: Vec<u32>, winnings: Vec<u32> },
    /// The dealer is shuffling the shoe.
    Shuffle,
}

/// The views of the turns of a vector, in its order.
pub open spec fn pending_views(turns: Seq<PendingTurn>) -> Seq<PendingTurnView> {
    turns.map_values(|turn: PendingTurn| turn@)
}

/// The views of the turns of a vector, in its order.
pub open spec fn finished_views(turns: Seq<FinishedTurn>) -> Seq<FinishedTurnView> {
    turns.map_values(|turn: FinishedTurn| turn@)
}

/// What the contracts say of a state: the state with the view of each
/// hand and turn in it.
pub enum GameStateView {
    Betting,
    DealFirstPlayerCards { bets: Seq<u32>, player_turns: Seq<PendingTurnView> },
    DealFirstDealerCard { player_turns: Seq<PendingTurnView> },
    DealSecondPlayerCards { player_turns: Seq<PendingTurnView>, dealer_hand: DealerHandView },
    DealHoleCard { player_turns: Seq<PendingTurnView>, dealer_hand: DealerHandView },
    OfferEarlySurrender { player_turns: Seq<PendingTurnView>, dealer_hand: DealerHandView },
    OfferInsurance { player_turns: Seq<PendingTurnView>, dealer_hand: DealerHandView },
    CheckDealerHoleCard { player_turns: Seq<PendingTurnView>, dealer_hand: DealerHandView },
    PlayPlayerTurn {
        pending_turns: Seq<PendingTurnView>,
        current_turn: ActiveTurnView,
        finished_turns: Seq<FinishedTurnView>,
        dealer_hand: DealerHandView,
    },
    PlayerStand {
        pending_turns: Seq<PendingTurnView>,
        current_turn: ActiveTurnView,
        finished_turns: Seq<FinishedTurnView>,
        dealer_hand: DealerHandView,
    },
    PlayerHit {
        pending_turns: Seq<PendingTurnView>,
        current_turn: ActiveTurnView,
        finished_turns: Seq<FinishedTurnView>,
        dealer_hand: DealerHandView,
    },
    PlayerDouble {
        pending_turns: Seq<PendingTurnView>,
        current_turn: ActiveTurnView,
        finished_turns: Seq<FinishedTurnView>,
        dealer_hand: DealerHandView,
    },
    PlayerSplit {
        pending_turns: Seq<PendingTurnView>,
        current_turn: ActiveTurnView,
        finished_turns: Seq<FinishedTurnView>,
        dealer_hand: DealerHandView,
    },
    DealFirstSplitCard {
        pending_turns: Seq<PendingTurnView>,
        current_turn: ActiveTurnView,
        new_hand: PlayerHandView,
        finished_turns: Seq<FinishedTurnView>,
        dealer_hand: DealerHandView,
    },
    DealSecondSplitCard {
        pending_turns: Seq<PendingTurnView>,
        current_turn: ActiveTurnView,
        new_hand: PlayerHandView,
        finished_turns: Seq<FinishedTurnView>,
        dealer_hand: DealerHandView,
    },
    PlayerSurrender {
        pending_turns: Seq<PendingTurnView>,
        current_turn: ActiveTurnView,
        finished_turns: Seq<FinishedTurnView>,
        dealer_hand: DealerHandView,
    },
    RevealHoleCard { finished_turns: Seq<FinishedTurnView>, dealer_hand: DealerHandView },
    PlayDealerTurn { finished_turns: Seq<FinishedTurnView>, dealer_hand: DealerHandView },
    RoundOver { finished_turns: Seq<FinishedTurnView>, dealer_hand: DealerHandView },
    Payout { total_bets: Seq<u32>, winnings: Seq<u32> },
    Shuffle,
}

impl View for GameState {
    type V = GameStateView;

    open spec fn view(&self) -> GameStateView {
        match *self {
            GameState::Betting => GameStateView::Betting,
            GameState::DealFirstPlayerCards { bets, player_turns } => {
                GameStateView::DealFirstPlayerCards {
                    bets: bets@,
                    player_turns: pending_views(player_turns@),
                }
            },
            GameState::DealFirstDealerCard { player_turns } => GameStateView::DealFirstDealerCard {
                player_turns: pending_views(player_turns@),
            },
            GameState::DealSecondPlayerCards { player_turns, dealer_hand } => {
                GameStateView::DealSecondPlayerCards {
                    player_turns: pending_views(player_turns@),
                    dealer_hand: dealer_hand@,
                }
            },
            GameState::DealHoleCard { player_turns, dealer_hand } => GameStateView::DealHoleCard {
                player_turns: pending_views(player_turns@),
                dealer_hand: dealer_hand@,
            },
            GameState::OfferEarlySurrender { player_turns, dealer_hand } => {
                GameStateView::OfferEarlySurrender {
                    player_turns: pending_views(player_turns@),
                    dealer_hand: dealer_hand@,
                }
            },
            GameState::OfferInsurance { player_turns, dealer_hand } => {
                GameStateView::OfferInsurance {
                    player_turns: pending_views(player_turns@),
                    dealer_hand: dealer_hand@,
                }
            },
            GameState::CheckDealerHoleCard { player_turns, dealer_hand } => {
                GameStateView::CheckDealerHoleCard {
                    player_turns: pending_views(player_turns@),
                    dealer_hand: dealer_hand@,
                }
            },
            GameState::PlayPlayerTurn { pending_turns, current_turn, finished_turns, dealer_hand } => {
                GameStateView::PlayPlayerTurn {
                    pending_turns: pending_views(pending_turns@),
                    current_turn: current_turn@,
                    finished_turns: finished_views(finished_turns@),
                    dealer_hand: dealer_hand@,
                }
            },
            GameState::PlayerStand { pending_turns, current_turn, finished_turns, dealer_hand } => {
                GameStateView::PlayerStand {
                    pending_turns: pending_views(pending_turns@),
                    current_turn: current_turn@,
                    finished_turns: finished_views(finished_turns@),
                    dealer_hand: dealer_hand@,
                }
            },
            GameState::PlayerHit { pending_turns, current_turn, finished_turns, dealer_hand } => {
                GameStateView::PlayerHit {
                    pending_turns: pending_views(pending_turns@),
                    current_turn: current_turn@,
                    finished_turns: finished_views(finished_turns@),
                    dealer_hand: dealer_hand@,
                }
            },
            GameState::PlayerDouble { pending_turns, current_turn, finished_turns, dealer_hand } => {
                GameStateView::PlayerDouble {
                    pending_turns: pending_views(pending_turns@),
                    current_turn: current_turn@,
                    finished_turns: finished_views(finished_turns@),
                    dealer_hand: dealer_hand@,
                }
            },
            GameState::PlayerSplit { pending_turns, current_turn, finished_turns, dealer_hand } => {
                GameStateView::PlayerSplit {
                    pending_turns: pending_views(pending_turns@),
                    current_turn: current_turn@,
                    finished_turns: finished_views(finished_turns@),
                    dealer_hand: dealer_hand@,
                }
            },
            GameState::DealFirstSplitCard {
                pending_turns,
                current_turn,
                new_hand,
                finished_turns,
                dealer_hand,
            } => GameStateView::DealFirstSplitCard {
                pending_turns: pending_views(pending_turns@),
                current_turn: current_turn@,
                new_hand: new_hand@,
                finished_turns: finished_views(finished_turns@),
                dealer_hand: dealer_hand@,
            },
            GameState::DealSecondSplitCard {
                pending_turns,
                current_turn,
                new_hand,
                finished_turns,
                dealer_hand,
            } => GameStateView::DealSecondSplitCard {
                pending_turns: pending_views(pending_turns@),
                current_turn: current_turn@,
                new_hand: new_hand@,
                finished_turns: finished_views(finished_turns@),
                dealer_hand: dealer_hand@,
            },
            GameState::PlayerSurrender { pending_turns, current_turn, finished_turns, dealer_hand } => {
                GameStateView::PlayerSurrender {
                    pending_turns: pending_views(pending_turns@),
                    current_turn: current_turn@,
                    finished_turns: finished_views(finished_turns@),
                    dealer_hand: dealer_hand@,
                }
            },
            GameState::RevealHoleCard { finished_turns, dealer_hand } => {
                GameStateView::RevealHoleCard {
                    finished_turns: finished_views(finished_turns@),
                    dealer_hand: dealer_hand@,
                }
            },
            GameState::PlayDealerTurn { finished_turns, dealer_hand } => {
                GameStateView::PlayDealerTurn {
                    finished_turns: finished_views(finished_turns@),
                    dealer_hand: dealer_hand@,
                }
            },
            GameState::RoundOver { finished_turns, dealer_hand } => GameStateView::RoundOver {
                finished_turns: finished_views(finished_turns@),
                dealer_hand: dealer_hand@,
            },
            GameState::Payout { total_bets, winnings } => GameStateView::Payout {
                total_bets: total_bets@,
                winnings: winnings@,
            },
            GameState::Shuffle => GameStateView::Shuffle,
        }
    }
}

} // verus!
