//! The transitions of a round, one function for each.
use crate::card::hand::{
    hand_views, hard_total, lemma_hand_value_push, lemma_single_hand_turn, lemma_stake_update,
    lemma_two_cards_value, lemma_winnings_prefix, stake, ActiveTurn, ActiveTurnView, DealerHand, FinishedTurn,
    FinishedTurnView, PendingTurn, PendingTurnView, PlayerHand, PlayerHandView, Status, MAX_STAKE,
};
use crate::card::Card;
use crate::game::model::{any_hand_stood, any_stood, closed_turns, first_single, no_card};
use crate::game::{BetError, Error, HandAction, ProgressResult, Table};
use crate::state::{finished_views, pending_views, GameState, GameStateView};
use crate::statistics::payable;
use vstd::prelude::*;

verus! {

/// Replacing the current hand of a turn by a hand with at least its bet
/// adds the difference to the stake and, within [`MAX_STAKE`], leaves the
/// turn well formed.
pub proof fn lemma_turn_with_current(turn: ActiveTurnView, hand: PlayerHandView)
    requires
        turn.wf(),
        hand.wf(),
        hand.bet >= turn.current_hand().bet,
        stake(turn.hands) - turn.current_hand().bet + hand.bet <= MAX_STAKE,
    ensures
        turn.with_current(hand).wf(),
        stake(turn.with_current(hand).hands) == stake(turn.hands) - turn.current_hand().bet
            + hand.bet,
        turn.with_current(hand).current_hand() == hand,
{
    lemma_stake_update(turn.hands, turn.current as int, hand);
}

/// Turns that were never played, finished as they are, in their order.
fn close_turns(player_turns: Vec<PendingTurn>) -> (finished_turns: Vec<FinishedTurn>)
    ensures
        finished_views(finished_turns@) == closed_turns(pending_views(player_turns@)),
{
    let ghost all = pending_views(player_turns@);
    let mut player_turns = player_turns;
    let mut finished_turns: Vec<FinishedTurn> = Vec::new();
    while player_turns.len() > 0
        invariant
            finished_views(finished_turns@) + closed_turns(pending_views(player_turns@))
                =~= closed_turns(all),
        decreases player_turns.len(),
    {
        let ghost left = pending_views(player_turns@);
        let ghost done = finished_views(finished_turns@);
        let turn = player_turns.remove(0);
        finished_turns.push(FinishedTurn::from(turn));
        proof {
            assert(pending_views(player_turns@) =~= left.remove(0));
            assert(finished_views(finished_turns@) =~= done.push(left[0].finished()));
            assert(done.push(left[0].finished()) + closed_turns(left.remove(0)) =~= done
                + closed_turns(left));
        }
    }
    proof {
        assert(finished_views(finished_turns@) + closed_turns(pending_views(player_turns@))
            =~= finished_views(finished_turns@));
    }
    finished_turns
}

/// Whether the player stood on one of the hands of one of the turns.
fn stood_on_any(finished_turns: &Vec<FinishedTurn>) -> (stood: bool)
    ensures
        stood == any_stood(finished_views(finished_turns@)),
{
    let ghost turns = finished_views(finished_turns@);
    let mut t: usize = 0;
    while t < finished_turns.len()
        invariant
            turns == finished_views(finished_turns@),
            t <= finished_turns.len(),
            forall|i: int| 0 <= i < t ==> !any_hand_stood((#[trigger] turns[i]).hands),
        decreases finished_turns.len() - t,
    {
        let turn = &finished_turns[t];
        let ghost hands = turn@.hands;
        let mut h: usize = 0;
        while h < turn.hands.len()
            invariant
                turns == finished_views(finished_turns@),
                hands == hand_views(turn.hands@),
                hands == turns[t as int].hands,
                0 <= t < turns.len(),
                h <= turn.hands.len(),
                forall|i: int| 0 <= i < h ==> (#[trigger] hands[i]).status != Status::Stood,
            decreases turn.hands.len() - h,
        {
            if turn.hands[h].status == Status::Stood {
                assert(hands[h as int].status == Status::Stood);
                assert(any_hand_stood(turns[t as int].hands));
                return true;
            }
            h += 1;
        }
        t += 1;
    }
    false
}

impl Table {
    /// The player places a bet to start the round.
    /// The bet must be within the table limits.
    /// If the bet is valid, the game transitions to dealing the first player card.
    pub fn bet(&self, bet: u32) -> (next: ProgressResult)
        requires
            self.rules.bet_error(bet) is None ==> bet <= MAX_STAKE,
        ensures
            match next {
                Ok(state) => GameStateView::after_bet(self.rules, bet) == Ok::<
                    GameStateView,
                    Error,
                >(state@) && state@.wf(),
                Err((state, error)) => GameStateView::after_bet(self.rules, bet) == Err::<
                    GameStateView,
                    Error,
                >(error) && state == GameState::Betting,
            },
    {
        let too_low = match self.rules.min_bet {
            Some(min) => bet < min,
            None => false,
        };
        let too_high = match self.rules.max_bet {
            Some(max) => bet > max,
            None => false,
        };
        if too_low {
            Err((GameState::Betting, Error::BetError(BetError::TooLow)))
        } else if too_high {
            Err((GameState::Betting, Error::BetError(BetError::TooHigh)))
        } else {
            let mut bets: Vec<u32> = Vec::new();
            bets.push(bet);
            let player_turns: Vec<PendingTurn> = Vec::new();
            proof {
                assert(bets@ =~= seq![bet]);
                assert(pending_views(player_turns@) =~= Seq::<PendingTurnView>::empty());
            }
            Ok(GameState::DealFirstPlayerCards { bets, player_turns })
        }
    }

    /// The dealer deals the first card to the player whose bet is the last,
    /// and the player's hand is created.
    /// Next, the dealer will deal their first card, or the first card
    /// of the next player while a bet is left.
    pub fn deal_first_player_card(
        &self,
        bets: Vec<u32>,
        player_turns: Vec<PendingTurn>,
        card: Card,
    ) -> (next: GameState)
        requires
            bets.len() >= 1,
        ensures
            next@ == GameStateView::after_first_player_card(
                bets@,
                pending_views(player_turns@),
                card,
            ),
            (GameStateView::DealFirstPlayerCards {
                bets: bets@,
                player_turns: pending_views(player_turns@),
            }).wf() ==> next@.wf(),
    {
        let mut bets = bets;
        let mut player_turns = player_turns;
        let ghost turns = pending_views(player_turns@);
        // There is another bet: the card makes the hand of its player
        let ghost placed = bets@;
        let bet = bets.pop().unwrap();
        proof {
            assert(bets@ =~= placed.drop_last());
        }
        let turn = PendingTurn { hand: PlayerHand::new(card, bet), insurance_bet: 0 };
        player_turns.push(turn);
        proof {
            assert(pending_views(player_turns@) =~= turns.push(
                PendingTurnView { hand: PlayerHandView::fresh(card, bet), insurance_bet: 0 },
            ));
        }
        if bets.len() == 0 {
            // If there are no more bets, the dealer will deal their first card
            GameState::DealFirstDealerCard { player_turns }
        } else {
            // If there are more bets, continue dealing cards to the players
            GameState::DealFirstPlayerCards { bets, player_turns }
        }
    }

    /// The dealer deals the first card to themselves and the dealer's hand is created.
    /// Next, the dealer will deal the second card to the player.
    pub fn deal_first_dealer_card(&self, player_turns: Vec<PendingTurn>, card: Card) -> (next:
        GameState)
        requires
            (GameStateView::DealFirstDealerCard { player_turns: pending_views(player_turns@) }).wf(),
        ensures
            next@ == GameStateView::after_first_dealer_card(
                self.rules,
                pending_views(player_turns@),
                card,
            ),
            next@.wf(),
    {
        let dealer_hand = DealerHand::new(card, self.rules.dealer_soft_17);
        GameState::DealSecondPlayerCards { player_turns, dealer_hand }
    }

    /// The dealer deals the second card to the player.
    /// Next, the dealer will deal the second card to themselves, also known as the hole card.
    /// The card is taken by the first hand that holds a single card; with
    /// no such hand no card is dealt.
    pub fn deal_second_player_card(
        &self,
        player_turns: Vec<PendingTurn>,
        dealer_hand: DealerHand,
        card: Option<Card>,
    ) -> (next: GameState)
        requires
            (GameStateView::DealSecondPlayerCards {
                player_turns: pending_views(player_turns@),
                dealer_hand: dealer_hand@,
            }).wf(),
            card is Some <==> first_single(pending_views(player_turns@), 0) < player_turns.len(),
        ensures
            card matches Some(c) ==> next@ == GameStateView::after_second_player_card(
                pending_views(player_turns@),
                dealer_hand@,
                c,
            ),
            card is None ==> next@ == (GameStateView::DealHoleCard {
                player_turns: pending_views(player_turns@),
                dealer_hand: dealer_hand@,
            }),
            next@.wf(),
    {
        let mut player_turns = player_turns;
        let ghost turns = pending_views(player_turns@);
        // Look for a hand which needs another card
        let mut i: usize = 0;
        while i < player_turns.len() && player_turns[i].hand.size() != 1
            invariant
                turns == pending_views(player_turns@),
                i <= player_turns.len(),
                first_single(turns, 0) == first_single(turns, i as nat),
            decreases player_turns.len() - i,
        {
            i += 1;
        }
        if i < player_turns.len() {
            let mut turn = player_turns.remove(i);
            assert(turn@ == turns[i as int]);
            turn.hand.add_assign(card.unwrap());
            proof {
                lemma_two_cards_value(turn.hand@.cards);
            }
            let ghost dealt = turn@;
            player_turns.insert(i, turn);
            proof {
                assert(pending_views(player_turns@) =~= turns.update(i as int, dealt));
            }
            GameState::DealSecondPlayerCards { player_turns, dealer_hand }
        } else {
            GameState::DealHoleCard { player_turns, dealer_hand }
        }
    }

    /// The dealer deals the hole card to themselves.
    /// If the dealer is showing a 10 or an Ace, they will check their hole card for Blackjack.
    /// If early surrender or insurance is offered, the game will transition to those states first.
    /// If the dealer cannot have Blackjack or if the player does have Blackjack, the dealer will
    /// not check their hole card, and will instead let the player play their hand.
    pub fn deal_hole_card(
        &self,
        player_turns: Vec<PendingTurn>,
        dealer_hand: DealerHand,
        card: Card,
    ) -> (next: GameState)
        requires
            (GameStateView::DealHoleCard {
                player_turns: pending_views(player_turns@),
                dealer_hand: dealer_hand@,
            }).wf(),
        ensures
            next@ == GameStateView::after_hole_card(
                self.rules,
                pending_views(player_turns@),
                dealer_hand@,
                card,
            ),
            next@.wf(),
            next@.awaits_input() || next@.rank() <= 45,
    {
        let mut dealer_hand = dealer_hand;
        let ghost turns = pending_views(player_turns@);
        dealer_hand.add_assign(card);
        let mut i: usize = 0;
        while i < player_turns.len() && player_turns[i].hand.status == Status::Blackjack
            invariant
                turns == pending_views(player_turns@),
                i <= player_turns.len(),
                forall|k: int| 0 <= k < i ==> (#[trigger] turns[k]).hand.status == Status::Blackjack,
            decreases player_turns.len() - i,
        {
            i += 1;
        }
        let every_blackjack = i == player_turns.len();
        proof {
            if !every_blackjack {
                assert(turns[i as int].hand.status != Status::Blackjack);
            }
            lemma_two_cards_value(dealer_hand@.cards);
        }
        if dealer_hand.showing() < 10 || every_blackjack {
            // The dealer cannot have Blackjack or all players have Blackjack,
            // so the dealer will not check their hole card or offer early surrender or insurance
            self.start_player_phase_or_end_round(player_turns, dealer_hand)
        } else if self.rules.early_surrender {
            // The dealer is showing a 10 or greater and early surrender is offered
            // This will give players a chance to surrender before the dealer checks for Blackjack
            GameState::OfferEarlySurrender { player_turns, dealer_hand }
        } else if self.rules.insurance && dealer_hand.showing() == 11 {
            // The dealer is showing an ace and insurance is offered
            // This will give players a chance to place an insurance bet before the dealer checks for Blackjack
            GameState::OfferInsurance { player_turns, dealer_hand }
        } else {
            // The dealer is showing at least a 10 and no early surrender or insurance is offered
            // The dealer checks their hole card for Blackjack
            GameState::CheckDealerHoleCard { player_turns, dealer_hand }
        }
    }

    /// The player decides whether to surrender early.
    /// If the player surrenders, their hand is finished and the round is over.
    /// Otherwise, if insurance is offered and the dealer is showing an Ace, the player can place
    /// an insurance bet.
    /// Otherwise, the dealer checks their hole card for Blackjack.
    pub fn choose_early_surrender(
        &self,
        player_turns: Vec<PendingTurn>,
        dealer_hand: DealerHand,
        surrender: bool,
    ) -> (next: GameState)
        requires
            (GameStateView::OfferEarlySurrender {
                player_turns: pending_views(player_turns@),
                dealer_hand: dealer_hand@,
            }).wf(),
        ensures
            next@ == GameStateView::after_early_surrender(
                self.rules,
                pending_views(player_turns@),
                dealer_hand@,
                surrender,
            ),
            next@.wf(),
    {
        let mut player_turns = player_turns;
        let ghost turns = pending_views(player_turns@);
        if surrender {
            let mut turn = player_turns.remove(0);
            turn.hand.surrender();
            let ghost surrendered = turn@;
            player_turns.insert(0, turn);
            proof {
                assert(pending_views(player_turns@) =~= turns.update(0, surrendered));
                lemma_single_hand_turn(surrendered);
            }
            // The player has surrendered, so the round is over
            let finished_turns = close_turns(player_turns);
            GameState::RoundOver { finished_turns, dealer_hand }
        } else if self.rules.insurance && dealer_hand.showing() == 11 {
            GameState::OfferInsurance { player_turns, dealer_hand }
        } else {
            GameState::CheckDealerHoleCard { player_turns, dealer_hand }
        }
    }

    /// The player places an insurance bet.
    /// The bet is at most half of the bet on the hand.
    /// Next, the dealer will check their hole card for Blackjack.
    pub fn bet_insurance(
        &self,
        player_turns: Vec<PendingTurn>,
        dealer_hand: DealerHand,
        insurance_bet: u32,
    ) -> (next: GameState)
        requires
            (GameStateView::OfferInsurance {
                player_turns: pending_views(player_turns@),
                dealer_hand: dealer_hand@,
            }).wf(),
        ensures
            next@ == GameStateView::after_insurance(
                pending_views(player_turns@),
                dealer_hand@,
                insurance_bet,
            ),
            next@.wf(),
    {
        let mut player_turns = player_turns;
        let ghost turns = pending_views(player_turns@);
        let mut turn = player_turns.remove(0);
        turn.insurance_bet = if insurance_bet > turn.hand.bet / 2 {
            turn.hand.bet / 2
        } else {
            insurance_bet
        };
        let ghost insured = turn@;
        player_turns.insert(0, turn);
        proof {
            assert(pending_views(player_turns@) =~= turns.update(0, insured));
        }
        GameState::CheckDealerHoleCard { player_turns, dealer_hand }
    }

    /// The dealer checks their hole card for Blackjack.
    /// If the dealer does not have Blackjack, it is the player's turn to play their hand.
    /// If the dealer does have Blackjack, the round is over.
    pub fn check_dealer_hole_card(
        &self,
        player_turns: Vec<PendingTurn>,
        dealer_hand: DealerHand,
    ) -> (next: GameState)
        requires
            (GameStateView::CheckDealerHoleCard {
                player_turns: pending_views(player_turns@),
                dealer_hand: dealer_hand@,
            }).wf(),
        ensures
            next@ == GameStateView::after_hole_card_check(
                pending_views(player_turns@),
                dealer_hand@,
            ),
            next@.wf(),
            next@.in_or_after_play() || next@ is RoundOver,
    {
        if dealer_hand.status == Status::Blackjack {
            proof {
                lemma_single_hand_turn(pending_views(player_turns@)[0]);
            }
            // The dealer has Blackjack, so the round is over before the players play their hands
            let finished_turns = close_turns(player_turns);
            GameState::RoundOver { finished_turns, dealer_hand }
        } else {
            self.start_player_phase_or_end_round(player_turns, dealer_hand)
        }
    }

    /// The dealer has finished dealing, and it is the player's turn to play their hand.
    /// If there are players in the game, the first player will play their hand.
    /// If there are no players, the dealer will reveal their hole card and stand, ending the round.
    pub fn start_player_phase_or_end_round(
        &self,
        player_turns: Vec<PendingTurn>,
        dealer_hand: DealerHand,
    ) -> (next: GameState)
        requires
            GameStateView::waiting(pending_views(player_turns@)),
            GameStateView::dealt(dealer_hand@),
        ensures
            next@ == GameStateView::player_phase_start(pending_views(player_turns@), dealer_hand@),
            next@.wf(),
            next@.in_or_after_play() || next@ is RoundOver,
    {
        let mut player_turns = player_turns;
        let mut dealer_hand = dealer_hand;
        let ghost turns = pending_views(player_turns@);
        let finished_turns: Vec<FinishedTurn> = Vec::new();
        proof {
            assert(finished_views(finished_turns@) =~= Seq::<FinishedTurnView>::empty());
        }
        match player_turns.pop() {
            Some(first_turn) => {
                proof {
                    assert(pending_views(player_turns@) =~= turns.drop_last());
                }
                // If we have at least one player, the player will play their hand
                self.continue_player_phase_or_go_to_dealer(
                    player_turns,
                    ActiveTurn::from(first_turn),
                    finished_turns,
                    dealer_hand,
                )
            },
            None => {
                proof {
                    lemma_two_cards_value(dealer_hand@.cards);
                }
                // If there are no players, the dealer flips their hole card and stands
                dealer_hand.status = Status::Stood;
                GameState::RoundOver { finished_turns, dealer_hand }
            },
        }
    }

    /// We check if the player still has a hand to play.
    /// If so, we continue the player's turn.
    /// Otherwise, the player's turn is over and the dealer will reveal their hole card.
    pub fn continue_player_phase_or_go_to_dealer(
        &self,
        pending_turns: Vec<PendingTurn>,
        current_turn: ActiveTurn,
        finished_turns: Vec<FinishedTurn>,
        dealer_hand: DealerHand,
    ) -> (next: GameState)
        requires
            GameStateView::in_players_phase(
                pending_views(pending_turns@),
                current_turn@,
                finished_views(finished_turns@),
                dealer_hand@,
            ),
        ensures
            next@ == GameStateView::player_phase(
                pending_views(pending_turns@),
                current_turn@,
                finished_views(finished_turns@),
                dealer_hand@,
            ),
            next@.wf(),
            next@.in_or_after_play(),
    {
        let mut pending_turns = pending_turns;
        let mut finished_turns = finished_turns;
        let mut dealer_hand = dealer_hand;
        let ghost dealer = dealer_hand@;
        let ghost finished = finished_views(finished_turns@);
        match current_turn.continue_playing() {
            // The current player's turn is not over
            Ok(current_turn) => GameState::PlayPlayerTurn {
                pending_turns,
                current_turn,
                finished_turns,
                dealer_hand,
            },
            // The current player's turn is over
            // Move to the next player if there is one, otherwise go to the dealer's turn
            Err(finished_turn) => {
                finished_turns.push(finished_turn);
                proof {
                    assert(finished_views(finished_turns@) =~= finished.push(finished_turn@));
                }
                let ghost goal = GameStateView::next_turn(
                    pending_views(pending_turns@),
                    finished_views(finished_turns@),
                    dealer,
                );
                // Skip any hands that are no longer in play
                while pending_turns.len() > 0 && pending_turns[pending_turns.len() - 1].hand.status
                    != Status::InPlay
                    invariant
                        goal == GameStateView::next_turn(
                            pending_views(pending_turns@),
                            finished_views(finished_turns@),
                            dealer,
                        ),
                        GameStateView::waiting(pending_views(pending_turns@)),
                        GameStateView::played(finished_views(finished_turns@)),
                    decreases pending_turns.len(),
                {
                    let ghost waiting = pending_views(pending_turns@);
                    let ghost done = finished_views(finished_turns@);
                    let turn = pending_turns.pop().unwrap();
                    proof {
                        assert(turn@ == waiting[waiting.len() - 1]);
                    }
                    finished_turns.push(FinishedTurn::from(turn));
                    proof {
                        assert(pending_views(pending_turns@) =~= waiting.drop_last());
                        assert(finished_views(finished_turns@) =~= done.push(
                            waiting.last().finished(),
                        ));
                    }
                }
                let ghost waiting = pending_views(pending_turns@);
                // If there are still hands in play, go to the next player's turn
                match pending_turns.pop() {
                    Some(next_turn) => {
                        proof {
                            assert(pending_views(pending_turns@) =~= waiting.drop_last());
                            assert(next_turn@ == waiting[waiting.len() - 1]);
                        }
                        GameState::PlayPlayerTurn {
                            pending_turns,
                            current_turn: ActiveTurn::from(next_turn),
                            finished_turns,
                            dealer_hand,
                        }
                    },
                    None => {
                        // All players are done; go to dealer turn.
                        // If none of the players explicitly stood on any of their hands,
                        // the dealer will simply flip their hole card and stand immediately.
                        if dealer_hand.status == Status::InPlay && !stood_on_any(&finished_turns) {
                            dealer_hand.status = Status::Stood;
                        }
                        GameState::RevealHoleCard { finished_turns, dealer_hand }
                    },
                }
            },
        }
    }
}

impl Table {
    /// It is the player's turn.
    /// The player starts with one hand, but may have more if they split.
    /// The player can choose to stand, hit, double down, split, or surrender.
    /// Doubling down, splitting, and surrendering are only allowed in certain circumstances.
    pub fn play_player_turn(
        &self,
        pending_turns: Vec<PendingTurn>,
        current_turn: ActiveTurn,
        finished_turns: Vec<FinishedTurn>,
        dealer_hand: DealerHand,
        action: HandAction,
    ) -> (next: ProgressResult)
        requires
            GameStateView::after_action(
                self.rules,
                pending_views(pending_turns@),
                current_turn@,
                finished_views(finished_turns@),
                dealer_hand@,
                action,
            ) is Ok ==> {
                &&& (GameStateView::PlayPlayerTurn {
                    pending_turns: pending_views(pending_turns@),
                    current_turn: current_turn@,
                    finished_turns: finished_views(finished_turns@),
                    dealer_hand: dealer_hand@,
                }).wf()
                &&& action == HandAction::Double || action == HandAction::Split
                    ==> GameStateView::has_room(current_turn@, current_turn@.current_hand())
            },
        ensures
            match next {
                Ok(state) => GameStateView::after_action(
                    self.rules,
                    pending_views(pending_turns@),
                    current_turn@,
                    finished_views(finished_turns@),
                    dealer_hand@,
                    action,
                ) == Ok::<GameStateView, Error>(state@) && state@.wf(),
                Err((state, error)) => GameStateView::after_action(
                    self.rules,
                    pending_views(pending_turns@),
                    current_turn@,
                    finished_views(finished_turns@),
                    dealer_hand@,
                    action,
                ) == Err::<GameStateView, Error>(error) && state == (GameState::PlayPlayerTurn {
                    pending_turns,
                    current_turn,
                    finished_turns,
                    dealer_hand,
                }),
            },
    {
        match action {
            HandAction::Hit => Ok(
                GameState::PlayerHit { pending_turns, current_turn, finished_turns, dealer_hand },
            ),
            HandAction::Stand => Ok(
                GameState::PlayerStand { pending_turns, current_turn, finished_turns, dealer_hand },
            ),
            HandAction::Double => {
                match self.check_double_allowed(&current_turn) {
                    Err(err) => Err(
                        (
                            GameState::PlayPlayerTurn {
                                pending_turns,
                                current_turn,
                                finished_turns,
                                dealer_hand,
                            },
                            Error::DoubleError(err),
                        ),
                    ),
                    Ok(_) => Ok(
                        GameState::PlayerDouble {
                            pending_turns,
                            current_turn,
                            finished_turns,
                            dealer_hand,
                        },
                    ),
                }
            },
            HandAction::Split => {
                match self.check_split_allowed(&current_turn) {
                    Err(err) => Err(
                        (
                            GameState::PlayPlayerTurn {
                                pending_turns,
                                current_turn,
                                finished_turns,
                                dealer_hand,
                            },
                            Error::SplitError(err),
                        ),
                    ),
                    Ok(_) => Ok(
                        GameState::PlayerSplit {
                            pending_turns,
                            current_turn,
                            finished_turns,
                            dealer_hand,
                        },
                    ),
                }
            },
            HandAction::Surrender => {
                match self.check_surrender_allowed(current_turn.current_hand()) {
                    Err(err) => Err(
                        (
                            GameState::PlayPlayerTurn {
                                pending_turns,
                                current_turn,
                                finished_turns,
                                dealer_hand,
                            },
                            Error::SurrenderError(err),
                        ),
                    ),
                    Ok(_) => Ok(
                        GameState::PlayerSurrender {
                            pending_turns,
                            current_turn,
                            finished_turns,
                            dealer_hand,
                        },
                    ),
                }
            },
        }
    }

    /// The dealer deals the next card to the player's current hand.
    /// We continue the player's turn if they still have hands in play, or go to the dealer's turn.
    pub fn hit(
        &self,
        pending_turns: Vec<PendingTurn>,
        current_turn: ActiveTurn,
        finished_turns: Vec<FinishedTurn>,
        dealer_hand: DealerHand,
        card: Card,
    ) -> (next: GameState)
        requires
            GameStateView::playing(
                pending_views(pending_turns@),
                current_turn@,
                finished_views(finished_turns@),
                dealer_hand@,
            ),
        ensures
            next@ == GameStateView::player_phase(
                pending_views(pending_turns@),
                current_turn@.with_current(current_turn@.current_hand().with_card(card)),
                finished_views(finished_turns@),
                dealer_hand@,
            ),
            next@.wf(),
            next@.in_or_after_play(),
    {
        let mut current_turn = current_turn;
        let ghost before = current_turn@;
        current_turn.current_hand_mut().add_assign(card);
        proof {
            lemma_turn_with_current(before, before.current_hand().with_card(card));
        }
        self.continue_player_phase_or_go_to_dealer(
            pending_turns,
            current_turn,
            finished_turns,
            dealer_hand,
        )
    }

    /// The player stands and the hand is finished.
    /// We continue the player's turn if they still have hands in play, or go to the dealer's turn.
    pub fn stand(
        &self,
        pending_turns: Vec<PendingTurn>,
        current_turn: ActiveTurn,
        finished_turns: Vec<FinishedTurn>,
        dealer_hand: DealerHand,
    ) -> (next: GameState)
        requires
            GameStateView::playing(
                pending_views(pending_turns@),
                current_turn@,
                finished_views(finished_turns@),
                dealer_hand@,
            ),
        ensures
            next@ == GameStateView::player_phase(
                pending_views(pending_turns@),
                current_turn@.with_current(current_turn@.current_hand().stood()),
                finished_views(finished_turns@),
                dealer_hand@,
            ),
            next@.wf(),
            next@.in_or_after_play(),
    {
        let mut current_turn = current_turn;
        let ghost before = current_turn@;
        current_turn.current_hand_mut().stand();
        proof {
            lemma_turn_with_current(before, before.current_hand().stood());
        }
        self.continue_player_phase_or_go_to_dealer(
            pending_turns,
            current_turn,
            finished_turns,
            dealer_hand,
        )
    }

    /// The player doubles down and the hand is finished.
    /// We continue the player's turn if they still have hands in play, or go to the dealer's turn.
    pub fn double(
        &self,
        pending_turns: Vec<PendingTurn>,
        current_turn: ActiveTurn,
        finished_turns: Vec<FinishedTurn>,
        dealer_hand: DealerHand,
        card: Card,
    ) -> (next: GameState)
        requires
            (GameStateView::PlayerDouble {
                pending_turns: pending_views(pending_turns@),
                current_turn: current_turn@,
                finished_turns: finished_views(finished_turns@),
                dealer_hand: dealer_hand@,
            }).wf(),
        ensures
            next@ == GameStateView::player_phase(
                pending_views(pending_turns@),
                current_turn@.with_current(current_turn@.current_hand().doubled(card)),
                finished_views(finished_turns@),
                dealer_hand@,
            ),
            next@.wf(),
            next@.in_or_after_play(),
    {
        let mut current_turn = current_turn;
        let ghost before = current_turn@;
        proof {
            lemma_stake_update(before.hands, before.current as int, before.current_hand());
        }
        current_turn.current_hand_mut().double(card);
        proof {
            lemma_turn_with_current(before, before.current_hand().doubled(card));
        }
        self.continue_player_phase_or_go_to_dealer(
            pending_turns,
            current_turn,
            finished_turns,
            dealer_hand,
        )
    }

    /// The dealer separates the player's hand into two.
    /// Next, the dealer will deal a new card to the first of the two split hands.
    pub fn split(
        &self,
        pending_turns: Vec<PendingTurn>,
        current_turn: ActiveTurn,
        finished_turns: Vec<FinishedTurn>,
        dealer_hand: DealerHand,
    ) -> (next: GameState)
        requires
            (GameStateView::PlayerSplit {
                pending_turns: pending_views(pending_turns@),
                current_turn: current_turn@,
                finished_turns: finished_views(finished_turns@),
                dealer_hand: dealer_hand@,
            }).wf(),
        ensures
            next@ == GameStateView::after_split(
                pending_views(pending_turns@),
                current_turn@,
                finished_views(finished_turns@),
                dealer_hand@,
            ),
            next@.wf(),
    {
        let mut current_turn = current_turn;
        let ghost before = current_turn@;
        let new_hand = current_turn.current_hand_mut().split();
        proof {
            lemma_turn_with_current(before, before.current_hand().split_kept());
        }
        GameState::DealFirstSplitCard {
            pending_turns,
            current_turn,
            new_hand,
            finished_turns,
            dealer_hand,
        }
    }

    /// The dealer deals a card to the first of the two split hands.
    /// Next, the dealer will deal a new card to the second of the two split hands.
    pub fn deal_first_split_card(
        &self,
        pending_turns: Vec<PendingTurn>,
        current_turn: ActiveTurn,
        new_hand: PlayerHand,
        finished_turns: Vec<FinishedTurn>,
        dealer_hand: DealerHand,
        card: Card,
    ) -> (next: GameState)
        requires
            (GameStateView::DealFirstSplitCard {
                pending_turns: pending_views(pending_turns@),
                current_turn: current_turn@,
                new_hand: new_hand@,
                finished_turns: finished_views(finished_turns@),
                dealer_hand: dealer_hand@,
            }).wf(),
        ensures
            next@ == (GameStateView::DealSecondSplitCard {
                pending_turns: pending_views(pending_turns@),
                current_turn: current_turn@.with_current(
                    current_turn@.current_hand().with_card(card),
                ),
                new_hand: new_hand@,
                finished_turns: finished_views(finished_turns@),
                dealer_hand: dealer_hand@,
            }),
            next@.wf(),
    {
        let mut current_turn = current_turn;
        let ghost before = current_turn@;
        current_turn.current_hand_mut().add_assign(card);
        proof {
            lemma_turn_with_current(before, before.current_hand().with_card(card));
        }
        GameState::DealSecondSplitCard {
            pending_turns,
            current_turn,
            new_hand,
            finished_turns,
            dealer_hand,
        }
    }

    /// The dealer deals a card to the second of the two split hands.
    /// The player will play the first split hand first, and the second split hand after.
    /// We continue the player's turn if they still have hands in play, or go to the dealer's turn.
    pub fn deal_second_split_card(
        &self,
        pending_turns: Vec<PendingTurn>,
        current_turn: ActiveTurn,
        new_hand: PlayerHand,
        finished_turns: Vec<FinishedTurn>,
        dealer_hand: DealerHand,
        card: Card,
    ) -> (next: GameState)
        requires
            (GameStateView::DealSecondSplitCard {
                pending_turns: pending_views(pending_turns@),
                current_turn: current_turn@,
                new_hand: new_hand@,
                finished_turns: finished_views(finished_turns@),
                dealer_hand: dealer_hand@,
            }).wf(),
        ensures
            next@ == GameStateView::player_phase(
                pending_views(pending_turns@),
                current_turn@.deferred(new_hand@.with_card(card)),
                finished_views(finished_turns@),
                dealer_hand@,
            ),
            next@.wf(),
            next@.in_or_after_play(),
    {
        let mut current_turn = current_turn;
        let mut new_hand = new_hand;
        new_hand.add_assign(card);
        current_turn.defer(new_hand);
        self.continue_player_phase_or_go_to_dealer(
            pending_turns,
            current_turn,
            finished_turns,
            dealer_hand,
        )
    }

    /// The player surrenders and the hand is finished.
    /// We continue the player's turn if they still have hands in play, or go to the dealer's turn.
    pub fn surrender(
        &self,
        pending_turns: Vec<PendingTurn>,
        current_turn: ActiveTurn,
        finished_turns: Vec<FinishedTurn>,
        dealer_hand: DealerHand,
    ) -> (next: GameState)
        requires
            GameStateView::playing(
                pending_views(pending_turns@),
                current_turn@,
                finished_views(finished_turns@),
                dealer_hand@,
            ),
            current_turn@.current_hand().can_surrender(),
        ensures
            next@ == GameStateView::player_phase(
                pending_views(pending_turns@),
                current_turn@.with_current(current_turn@.current_hand().surrendered()),
                finished_views(finished_turns@),
                dealer_hand@,
            ),
            next@.wf(),
            next@.in_or_after_play(),
    {
        let mut current_turn = current_turn;
        let ghost before = current_turn@;
        current_turn.current_hand_mut().surrender();
        proof {
            lemma_turn_with_current(before, before.current_hand().surrendered());
        }
        self.continue_player_phase_or_go_to_dealer(
            pending_turns,
            current_turn,
            finished_turns,
            dealer_hand,
        )
    }

    /// The dealer reveals their hole card.
    /// If the dealer's hand is no longer in play, the round is over.
    pub fn play_dealer_turn_or_end_round(
        &self,
        finished_turns: Vec<FinishedTurn>,
        dealer_hand: DealerHand,
    ) -> (next: GameState)
        ensures
            next@ == GameStateView::after_reveal(finished_views(finished_turns@), dealer_hand@),
    {
        if dealer_hand.status == Status::InPlay {
            GameState::PlayDealerTurn { finished_turns, dealer_hand }
        } else {
            GameState::RoundOver { finished_turns, dealer_hand }
        }
    }

    /// The dealer adds a card to their hand.
    /// This will repeat itself until the dealer's hand is no longer in play.
    /// Then, the round is over.
    pub fn play_dealer_turn(
        &self,
        finished_turns: Vec<FinishedTurn>,
        dealer_hand: DealerHand,
        card: Card,
    ) -> (next: GameState)
        requires
            dealer_hand@.wf(),
            dealer_hand@.cards.len() >= 2,
            dealer_hand@.status == Status::InPlay,
        ensures
            next@ == GameStateView::after_reveal(
                finished_views(finished_turns@),
                dealer_hand@.with_card(card),
            ),
            dealer_hand@.with_card(card).wf(),
            hard_total(dealer_hand@.with_card(card).cards)
                > hard_total(dealer_hand@.cards),
    {
        let mut dealer_hand = dealer_hand;
        proof {
            lemma_hand_value_push(dealer_hand@.cards, card);
        }
        dealer_hand.add_assign(card);
        self.play_dealer_turn_or_end_round(finished_turns, dealer_hand)
    }

    /// The round is over, and the dealer turns over their hole card.
    /// The player's total bet and winnings are calculated.
    pub fn end_round(&mut self, finished_turns: Vec<FinishedTurn>, dealer_hand: DealerHand) -> (next:
        GameState)
        requires
            (GameStateView::RoundOver {
                finished_turns: finished_views(finished_turns@),
                dealer_hand: dealer_hand@,
            }).wf(),
        ensures
            next@ == GameStateView::after_round(
                old(self).rules,
                finished_views(finished_turns@),
                dealer_hand@,
            ),
            final(self)@ == old(self)@.after_step(
                GameStateView::RoundOver {
                    finished_turns: finished_views(finished_turns@),
                    dealer_hand: dealer_hand@,
                },
                no_card(),
            ),
    {
        let ghost turns = finished_views(finished_turns@);
        let ghost goal = GameStateView::after_round(self.rules, turns, dealer_hand@);
        let mut total_bets: Vec<u32> = Vec::new();
        let mut winnings: Vec<u32> = Vec::new();
        let mut i: usize = 0;
        while i < finished_turns.len()
            invariant
                turns == finished_views(finished_turns@),
                GameStateView::played(turns),
                i <= finished_turns.len(),
                total_bets@.len() == i,
                winnings@.len() == i,
                goal == GameStateView::after_round(self.rules, turns, dealer_hand@),
                forall|k: int| 0 <= k < i ==> total_bets@[k] == goal->total_bets[k],
                forall|k: int| 0 <= k < i ==> winnings@[k] == goal->winnings[k],
            decreases finished_turns.len() - i,
        {
            let turn = &finished_turns[i];
            proof {
                assert(turn@ == turns[i as int]);
                lemma_winnings_prefix(turn@.hands, 0, dealer_hand@, self.rules.blackjack_payout);
            }
            total_bets.push(turn.total_bet());
            winnings.push(turn.calculate_winnings(&dealer_hand, self.rules.blackjack_payout));
            i += 1;
        }
        proof {
            assert(total_bets@ =~= goal->total_bets);
            assert(winnings@ =~= goal->winnings);
        }
        proof {
            assert forall|t: int| 0 <= t < finished_turns.len() implies payable(
                (#[trigger] finished_turns[t])@,
                dealer_hand@,
                self.rules.blackjack_payout,
            ) by {
                let hands = turns[t].hands;
                assert(turns[t].wf());
                assert forall|h: int| 0 <= h < hands.len() implies (#[trigger] hands[h]).winnings(
                    dealer_hand@,
                    self.rules.blackjack_payout,
                ) <= u32::MAX by {
                    lemma_winnings_prefix(hands, h, dealer_hand@, self.rules.blackjack_payout);
                    lemma_stake_update(hands, h, hands[h]);
                }
            }
        }
        self.statistics.update(finished_turns, dealer_hand, self.rules.blackjack_payout);
        GameState::Payout { total_bets, winnings }
    }

    /// The dealer pays out the player's winnings.
    /// The dealer will shuffle the shoe if necessary, or the game will return to betting.
    pub fn pay_out_winnings(&self, winnings: Vec<u32>) -> (next: GameState)
        ensures
            next@ == if self.shoe@.needs_shuffle() {
                GameStateView::Shuffle
            } else {
                GameStateView::Betting
            },
    {
        if self.shoe.needs_shuffle() {
            GameState::Shuffle
        } else {
            GameState::Betting
        }
    }

    /// The dealer shuffles the shoe.
    /// The game returns to the betting state.
    pub fn shuffle_dispenser(&mut self) -> (next: GameState)
        ensures
            next@ == GameStateView::Betting,
            final(self)@ == old(self)@.after_step(GameStateView::Shuffle, no_card()),
            old(self).shoe@.decks >= 1 ==> final(self).shoe@.wf(),
    {
        self.shoe.shuffle();
        GameState::Betting
    }
}

} // verus!
