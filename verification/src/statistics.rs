//! Counts over the rounds that a table has played.
use crate::card::hand::{
    hand_views, DealerHand, DealerHandView, FinishedTurn, FinishedTurnView, PlayerHandView, Status,
};
use crate::rules::BlackjackPayout;
use crate::state::finished_views;
use vstd::prelude::*;

verus! {

/// What has happened at a table so far. Every count stops at the largest
/// number it can hold.
#[derive(Debug, Default, Clone, Copy, PartialEq, Eq, Structural)]
pub struct Statistics {
    pub turns_played: usize,
    pub hands_played: usize,
    pub total_bet: usize,
    pub total_won: usize,
    pub wins: usize,
    pub pushes: usize,
    pub losses: usize,
    pub blackjacks: usize,
    pub busts: usize,
    pub dealer_blackjacks: usize,
    pub dealer_busts: usize,
}

/// Whether what each hand of the turn returns can be counted in `u32`.
pub open spec fn payable(
    turn: FinishedTurnView,
    dealer: DealerHandView,
    payout: BlackjackPayout,
) -> bool {
    forall|i: int|
        0 <= i < turn.hands.len() ==> (#[trigger] turn.hands[i]).winnings(dealer, payout)
            <= u32::MAX
}

/// One more, where the count can still hold it.
pub open spec fn counted(count: usize, counts: bool) -> usize {
    if counts {
        count.saturating_add(1)
    } else {
        count
    }
}

impl Statistics {
    /// The statistics of a table at which nothing has been played.
    pub open spec fn empty() -> Statistics {
        Statistics {
            turns_played: 0,
            hands_played: 0,
            total_bet: 0,
            total_won: 0,
            wins: 0,
            pushes: 0,
            losses: 0,
            blackjacks: 0,
            busts: 0,
            dealer_blackjacks: 0,
            dealer_busts: 0,
        }
    }

    /// The statistics with one more hand: the hand itself, its bet and
    /// what it returned, whether that was more than the bet (a win), the
    /// bet (a push) or less (a loss), and whether the hand was a blackjack
    /// or bust.
    pub open spec fn with_hand(
        self,
        hand: PlayerHandView,
        dealer: DealerHandView,
        payout: BlackjackPayout,
    ) -> Statistics {
        let winnings = hand.winnings(dealer, payout);
        Statistics {
            hands_played: self.hands_played.saturating_add(1),
            total_bet: self.total_bet.saturating_add(hand.bet as usize),
            total_won: self.total_won.saturating_add(winnings as usize),
            wins: counted(self.wins, winnings > hand.bet),
            pushes: counted(self.pushes, winnings == hand.bet),
            losses: counted(self.losses, winnings < hand.bet),
            blackjacks: counted(self.blackjacks, hand.status == Status::Blackjack),
            busts: counted(self.busts, hand.status == Status::Bust),
            ..self
        }
    }

    /// The statistics with the hands added one after the other.
    pub open spec fn with_hands(
        self,
        hands: Seq<PlayerHandView>,
        dealer: DealerHandView,
        payout: BlackjackPayout,
    ) -> Statistics
        decreases hands.len(),
    {
        if hands.len() == 0 {
            self
        } else {
            self.with_hands(hands.drop_last(), dealer, payout).with_hand(
                hands.last(),
                dealer,
                payout,
            )
        }
    }

    /// The statistics with one more turn and the hands of that turn.
    pub open spec fn with_turn(
        self,
        turn: FinishedTurnView,
        dealer: DealerHandView,
        payout: BlackjackPayout,
    ) -> Statistics {
        Statistics { turns_played: self.turns_played.saturating_add(1), ..self }.with_hands(
            turn.hands,
            dealer,
            payout,
        )
    }

    /// The statistics with the turns added one after the other.
    pub open spec fn with_turns(
        self,
        turns: Seq<FinishedTurnView>,
        dealer: DealerHandView,
        payout: BlackjackPayout,
    ) -> Statistics
        decreases turns.len(),
    {
        if turns.len() == 0 {
            self
        } else {
            self.with_turns(turns.drop_last(), dealer, payout).with_turn(
                turns.last(),
                dealer,
                payout,
            )
        }
    }

    /// The statistics after a round: its turns, and whether the dealer
    /// had a blackjack or went bust.
    pub open spec fn with_round(
        self,
        turns: Seq<FinishedTurnView>,
        dealer: DealerHandView,
        payout: BlackjackPayout,
    ) -> Statistics {
        let played = self.with_turns(turns, dealer, payout);
        Statistics {
            dealer_blackjacks: counted(played.dealer_blackjacks, dealer.status == Status::Blackjack),
            dealer_busts: counted(played.dealer_busts, dealer.status == Status::Bust),
            ..played
        }
    }

    /// The statistics of a table at which nothing has been played.
    #[must_use]
    pub fn new() -> (statistics: Statistics)
        ensures
            statistics == Statistics::empty(),
    {
        Statistics {
            turns_played: 0,
            hands_played: 0,
            total_bet: 0,
            total_won: 0,
            wins: 0,
            pushes: 0,
            losses: 0,
            blackjacks: 0,
            busts: 0,
            dealer_blackjacks: 0,
            dealer_busts: 0,
        }
    }

    /// Adds the hands of one finished turn.
    fn record_turn(
        &mut self,
        turn: &FinishedTurn,
        dealer_hand: &DealerHand,
        blackjack_payout: BlackjackPayout,
    )
        requires
            payable(turn@, dealer_hand@, blackjack_payout),
        ensures
            *final(self) == old(self).with_turn(turn@, dealer_hand@, blackjack_payout),
    {
        let ghost hands = turn@.hands;
        self.turns_played = self.turns_played.saturating_add(1);
        let ghost start = *self;
        let mut i: usize = 0;
        proof {
            assert(hands.take(0) =~= Seq::<PlayerHandView>::empty());
        }
        while i < turn.hands.len()
            invariant
                hands == hand_views(turn.hands@),
                hands == turn@.hands,
                i <= turn.hands.len(),
                payable(turn@, dealer_hand@, blackjack_payout),
                *self == start.with_hands(hands.take(i as int), dealer_hand@, blackjack_payout),
            decreases turn.hands.len() - i,
        {
            let hand = &turn.hands[i];
            proof {
                assert(hands.take(i + 1).drop_last() =~= hands.take(i as int));
                assert(hand@ == turn@.hands[i as int]);
            }
            let winnings = hand.calculate_winnings(dealer_hand, blackjack_payout);
            self.hands_played = self.hands_played.saturating_add(1);
            if hand.status == Status::Blackjack {
                self.blackjacks = self.blackjacks.saturating_add(1);
            }
            if hand.status == Status::Bust {
                self.busts = self.busts.saturating_add(1);
            }
            if winnings > hand.bet {
                self.wins = self.wins.saturating_add(1);
            } else if winnings == hand.bet {
                self.pushes = self.pushes.saturating_add(1);
            } else {
                self.losses = self.losses.saturating_add(1);
            }
            self.total_bet = self.total_bet.saturating_add(hand.bet as usize);
            self.total_won = self.total_won.saturating_add(winnings as usize);
            i += 1;
        }
        proof {
            assert(hands.take(i as int) =~= hands);
        }
    }

    /// Update the statistics with the results of a round of blackjack.
    pub fn update(
        &mut self,
        finished_turns: Vec<FinishedTurn>,
        dealer_hand: DealerHand,
        blackjack_payout: BlackjackPayout,
    )
        requires
            forall|i: int|
                0 <= i < finished_turns.len() ==> payable(
                    (#[trigger] finished_turns[i])@,
                    dealer_hand@,
                    blackjack_payout,
                ),
        ensures
            *final(self) == old(self).with_round(
                finished_views(finished_turns@),
                dealer_hand@,
                blackjack_payout,
            ),
    {
        let ghost turns = finished_views(finished_turns@);
        let ghost start = *self;
        let mut i: usize = 0;
        proof {
            assert(turns.take(0) =~= Seq::<FinishedTurnView>::empty());
        }
        while i < finished_turns.len()
            invariant
                turns == finished_views(finished_turns@),
                i <= finished_turns.len(),
                forall|i: int|
                    0 <= i < finished_turns.len() ==> payable(
                        (#[trigger] finished_turns[i])@,
                        dealer_hand@,
                        blackjack_payout,
                    ),
                *self == start.with_turns(turns.take(i as int), dealer_hand@, blackjack_payout),
            decreases finished_turns.len() - i,
        {
            proof {
                assert(turns.take(i + 1).drop_last() =~= turns.take(i as int));
            }
            self.record_turn(&finished_turns[i], &dealer_hand, blackjack_payout);
            i += 1;
        }
        proof {
            assert(turns.take(i as int) =~= turns);
        }
        if dealer_hand.status == Status::Blackjack {
            self.dealer_blackjacks = self.dealer_blackjacks.saturating_add(1);
        }
        if dealer_hand.status == Status::Bust {
            self.dealer_busts = self.dealer_busts.saturating_add(1);
        }
    }
}

} // verus!
