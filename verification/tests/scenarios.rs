use blackjack_core::card::hand::Status;
use blackjack_core::card::shoe::{Penetration, Shoe};
use blackjack_core::card::{Card, Rank, Suit};
use blackjack_core::game::{Error, HandAction, Input, SplitError, Table};
use blackjack_core::rules::{BlackjackPayout, DealerSoft17Action, Rules};
use blackjack_core::state::GameState;

fn table(rules: Rules) -> Table {
    Table::new(Shoe::new(6, Penetration { numerator: 3, denominator: 4 }), rules)
}

fn cards(ranks: &[Rank]) -> Vec<Card> {
    let suits = [Suit::Clubs, Suit::Diamonds, Suit::Hearts, Suit::Spades];
    ranks.iter().enumerate().map(|(i, rank)| Card { rank: *rank, suit: suits[i % 4] }).collect()
}

/// Makes one transition, with the next card of `deck` where it deals one.
fn advance(table: &mut Table, state: GameState, input: Option<Input>, deck: &mut Vec<Card>) -> GameState {
    let card = if state.deals_card() { Some(deck.remove(0)) } else { None };
    table.step(state, input, card).unwrap()
}

/// Makes the transitions up to the next state that waits for the player.
fn run(table: &mut Table, state: GameState, input: Option<Input>, deck: &mut Vec<Card>) -> GameState {
    let mut state = advance(table, state, input, deck);
    while !state.awaits_input() {
        state = advance(table, state, None, deck);
    }
    state
}

fn act(action: HandAction) -> Option<Input> {
    Some(Input::Action(action))
}

#[test]
fn standing_on_seventeen_wins_against_a_dealer_who_busts() {
    let mut table = table(Rules::default());
    let mut deck = cards(&[Rank::Ten, Rank::Six, Rank::Seven, Rank::Five, Rank::Five, Rank::King]);
    let state = advance(&mut table, GameState::Betting, Some(Input::Bet(100)), &mut deck);
    assert_eq!(state, GameState::DealFirstPlayerCards { bets: vec![100], player_turns: vec![] });
    let state = advance(&mut table, state, None, &mut deck);
    assert!(matches!(state, GameState::DealFirstDealerCard { .. }));
    let state = advance(&mut table, state, None, &mut deck);
    assert!(matches!(state, GameState::DealSecondPlayerCards { .. }));
    let state = advance(&mut table, state, None, &mut deck);
    assert!(matches!(state, GameState::DealSecondPlayerCards { .. }));
    let state = advance(&mut table, state, None, &mut deck);
    assert!(matches!(state, GameState::DealHoleCard { .. }));
    // The dealer shows a six: nothing is offered and nothing is checked
    let state = advance(&mut table, state, None, &mut deck);
    match &state {
        GameState::PlayPlayerTurn { current_turn, dealer_hand, pending_turns, finished_turns } => {
            assert_eq!(current_turn.current_hand().value.total, 17);
            assert!(!current_turn.current_hand().value.soft);
            assert_eq!(dealer_hand.showing(), 6);
            assert_eq!(dealer_hand.value.total, 11);
            assert!(pending_turns.is_empty() && finished_turns.is_empty());
        }
        other => panic!("unexpected state {:?}", other),
    }
    let state = advance(&mut table, state, act(HandAction::Stand), &mut deck);
    assert!(matches!(state, GameState::PlayerStand { .. }));
    let state = advance(&mut table, state, None, &mut deck);
    assert!(matches!(state, GameState::RevealHoleCard { .. }));
    let state = advance(&mut table, state, None, &mut deck);
    assert!(matches!(state, GameState::PlayDealerTurn { .. }));
    let state = advance(&mut table, state, None, &mut deck);
    match &state {
        GameState::PlayDealerTurn { dealer_hand, .. } => assert_eq!(dealer_hand.value.total, 16),
        other => panic!("unexpected state {:?}", other),
    }
    let state = advance(&mut table, state, None, &mut deck);
    match &state {
        GameState::RoundOver { dealer_hand, finished_turns } => {
            assert_eq!(dealer_hand.value.total, 26);
            assert_eq!(dealer_hand.status, Status::Bust);
            assert_eq!(finished_turns[0].hands[0].status, Status::Stood);
        }
        other => panic!("unexpected state {:?}", other),
    }
    let state = advance(&mut table, state, None, &mut deck);
    assert_eq!(state, GameState::Payout { total_bets: vec![100], winnings: vec![200] });
    let state = advance(&mut table, state, None, &mut deck);
    assert_eq!(state, GameState::Betting);
    assert!(deck.is_empty());
    assert_eq!(table.statistics.wins, 1);
    assert_eq!(table.statistics.dealer_busts, 1);
    assert_eq!(table.statistics.turns_played, 1);
    assert_eq!(table.statistics.total_won, 200);
}

#[test]
fn a_blackjack_against_a_five_is_paid_three_to_two() {
    let mut table = table(Rules { early_surrender: true, insurance: true, ..Rules::default() });
    let mut deck = cards(&[Rank::Ace, Rank::Five, Rank::King, Rank::Nine]);
    let mut state = advance(&mut table, GameState::Betting, Some(Input::Bet(100)), &mut deck);
    for _ in 0..4 {
        state = advance(&mut table, state, None, &mut deck);
    }
    assert!(matches!(state, GameState::DealHoleCard { .. }));
    // No offer, no check, no hand to play: the hole card is revealed at once
    let state = advance(&mut table, state, None, &mut deck);
    match &state {
        GameState::RevealHoleCard { finished_turns, dealer_hand } => {
            assert_eq!(finished_turns.len(), 1);
            assert_eq!(finished_turns[0].hands[0].status, Status::Blackjack);
            assert_eq!(dealer_hand.value.total, 14);
            assert_eq!(dealer_hand.status, Status::Stood);
        }
        other => panic!("unexpected state {:?}", other),
    }
    let state = advance(&mut table, state, None, &mut deck);
    assert!(matches!(state, GameState::RoundOver { .. }));
    let state = advance(&mut table, state, None, &mut deck);
    assert_eq!(state, GameState::Payout { total_bets: vec![100], winnings: vec![250] });
    assert_eq!(table.statistics.blackjacks, 1);
    assert_eq!(table.statistics.wins, 1);
}

#[test]
fn a_blackjack_is_paid_six_to_five_where_the_table_says_so() {
    let mut table = table(Rules { blackjack_payout: BlackjackPayout::SixToFive, ..Rules::default() });
    let mut deck = cards(&[Rank::Ace, Rank::Five, Rank::King, Rank::Nine]);
    let mut state = advance(&mut table, GameState::Betting, Some(Input::Bet(100)), &mut deck);
    while !matches!(state, GameState::Payout { .. }) {
        state = advance(&mut table, state, None, &mut deck);
    }
    assert_eq!(state, GameState::Payout { total_bets: vec![100], winnings: vec![220] });
}

#[test]
fn insurance_is_cut_to_half_the_bet_and_paid_on_a_dealer_blackjack() {
    let mut table = table(Rules { insurance: true, ..Rules::default() });
    let mut deck = cards(&[Rank::Ten, Rank::Ace, Rank::Nine, Rank::King]);
    let state = run(&mut table, GameState::Betting, Some(Input::Bet(100)), &mut deck);
    match &state {
        GameState::OfferInsurance { player_turns, dealer_hand } => {
            assert_eq!(player_turns[0].insurance_bet, 0);
            assert_eq!(dealer_hand.showing(), 11);
        }
        other => panic!("unexpected state {:?}", other),
    }
    let state = advance(&mut table, state, Some(Input::Bet(80)), &mut deck);
    match &state {
        GameState::CheckDealerHoleCard { player_turns, .. } => {
            assert_eq!(player_turns[0].insurance_bet, 50);
        }
        other => panic!("unexpected state {:?}", other),
    }
    let state = advance(&mut table, state, None, &mut deck);
    match &state {
        GameState::RoundOver { finished_turns, dealer_hand } => {
            assert_eq!(dealer_hand.status, Status::Blackjack);
            assert_eq!(finished_turns[0].insurance_bet, 50);
            assert_eq!(finished_turns[0].hands[0].status, Status::InPlay);
        }
        other => panic!("unexpected state {:?}", other),
    }
    let state = advance(&mut table, state, None, &mut deck);
    assert_eq!(state, GameState::Payout { total_bets: vec![150], winnings: vec![100] });
    assert_eq!(table.statistics.dealer_blackjacks, 1);
    assert_eq!(table.statistics.losses, 1);
}

#[test]
fn insurance_is_lost_where_the_dealer_has_no_blackjack() {
    let mut table = table(Rules { insurance: true, ..Rules::default() });
    let mut deck = cards(&[Rank::Ten, Rank::Ace, Rank::Nine, Rank::Seven]);
    let state = run(&mut table, GameState::Betting, Some(Input::Bet(100)), &mut deck);
    let state = run(&mut table, state, Some(Input::Bet(20)), &mut deck);
    assert!(matches!(state, GameState::PlayPlayerTurn { .. }));
    let mut state = advance(&mut table, state, act(HandAction::Stand), &mut deck);
    while !matches!(state, GameState::Payout { .. }) {
        state = advance(&mut table, state, None, &mut deck);
    }
    // 19 against a soft 18 wins 200; the insurance of 20 is gone
    assert_eq!(state, GameState::Payout { total_bets: vec![120], winnings: vec![200] });
}

#[test]
fn a_pair_of_eights_is_split_and_each_hand_is_played_in_turn() {
    let mut table = table(Rules::default());
    let mut deck = cards(&[
        Rank::Eight,
        Rank::King,
        Rank::Eight,
        Rank::Seven,
        Rank::Three,
        Rank::Ten,
        Rank::Queen,
    ]);
    let state = run(&mut table, GameState::Betting, Some(Input::Bet(100)), &mut deck);
    match &state {
        GameState::PlayPlayerTurn { current_turn, dealer_hand, .. } => {
            assert!(current_turn.current_hand().is_pair());
            assert_eq!(dealer_hand.showing(), 10);
        }
        other => panic!("unexpected state {:?}", other),
    }
    let state = advance(&mut table, state, act(HandAction::Split), &mut deck);
    assert!(matches!(state, GameState::PlayerSplit { .. }));
    let state = advance(&mut table, state, None, &mut deck);
    match &state {
        GameState::DealFirstSplitCard { current_turn, new_hand, .. } => {
            assert_eq!(current_turn.current_hand().size(), 1);
            assert_eq!(current_turn.hands(), 1);
            assert_eq!(new_hand.size(), 1);
            assert_eq!(new_hand.bet, 100);
        }
        other => panic!("unexpected state {:?}", other),
    }
    let state = advance(&mut table, state, None, &mut deck);
    match &state {
        GameState::DealSecondSplitCard { current_turn, new_hand, .. } => {
            assert_eq!(current_turn.current_hand().value.total, 11);
            assert_eq!(new_hand.size(), 1);
        }
        other => panic!("unexpected state {:?}", other),
    }
    let state = advance(&mut table, state, None, &mut deck);
    match &state {
        GameState::PlayPlayerTurn { current_turn, .. } => {
            assert_eq!(current_turn.hands(), 2);
            assert_eq!(current_turn.current_hand().value.total, 11);
        }
        other => panic!("unexpected state {:?}", other),
    }
    // The first hand draws to 21 and is stood on for the player
    let state = run(&mut table, state, act(HandAction::Hit), &mut deck);
    match &state {
        GameState::PlayPlayerTurn { current_turn, .. } => {
            assert_eq!(current_turn.hands(), 2);
            assert_eq!(current_turn.current_hand().value.total, 18);
        }
        other => panic!("unexpected state {:?}", other),
    }
    let state = advance(&mut table, state, act(HandAction::Stand), &mut deck);
    let state = advance(&mut table, state, None, &mut deck);
    match &state {
        GameState::RevealHoleCard { finished_turns, dealer_hand } => {
            assert_eq!(finished_turns.len(), 1);
            let totals: Vec<u8> = finished_turns[0].hands.iter().map(|hand| hand.value.total).collect();
            assert_eq!(totals, vec![21, 18]);
            assert_eq!(finished_turns[0].total_bet(), 200);
            assert_eq!(dealer_hand.status, Status::Stood);
        }
        other => panic!("unexpected state {:?}", other),
    }
    let state = advance(&mut table, state, None, &mut deck);
    let state = advance(&mut table, state, None, &mut deck);
    assert_eq!(state, GameState::Payout { total_bets: vec![200], winnings: vec![400] });
    assert_eq!(table.statistics.hands_played, 2);
    assert_eq!(table.statistics.total_bet, 200);
    assert!(deck.is_empty());
}

#[test]
fn a_split_hand_that_busts_does_not_stop_the_other() {
    let mut table = table(Rules::default());
    let mut deck = cards(&[
        Rank::Eight,
        Rank::King,
        Rank::Eight,
        Rank::Seven,
        Rank::Six,
        Rank::Two,
        Rank::Queen,
        Rank::Nine,
    ]);
    let state = run(&mut table, GameState::Betting, Some(Input::Bet(100)), &mut deck);
    let state = run(&mut table, state, act(HandAction::Split), &mut deck);
    // 8 + 6 draws a queen and busts; 8 + 2 is next
    let state = run(&mut table, state, act(HandAction::Hit), &mut deck);
    match &state {
        GameState::PlayPlayerTurn { current_turn, .. } => {
            assert_eq!(current_turn.current_hand().value.total, 10);
        }
        other => panic!("unexpected state {:?}", other),
    }
    let state = run(&mut table, state, act(HandAction::Double), &mut deck);
    assert_eq!(state, GameState::Betting);
    assert_eq!(table.statistics.busts, 1);
    assert_eq!(table.statistics.hands_played, 2);
    // 100 lost on the bust, 200 doubled on 19 against 17
    assert_eq!(table.statistics.total_bet, 300);
    assert_eq!(table.statistics.total_won, 400);
}

#[test]
fn tens_are_split_twice_and_not_a_third_time() {
    let mut table = table(Rules { max_splits: Some(2), ..Rules::default() });
    let ten = |suit| Card { rank: Rank::Ten, suit };
    let mut deck = vec![
        ten(Suit::Clubs),
        Card { rank: Rank::Six, suit: Suit::Hearts },
        ten(Suit::Diamonds),
        Card { rank: Rank::Nine, suit: Suit::Hearts },
        ten(Suit::Hearts),
        Card { rank: Rank::Five, suit: Suit::Clubs },
        ten(Suit::Spades),
        Card { rank: Rank::Four, suit: Suit::Clubs },
    ];
    let state = run(&mut table, GameState::Betting, Some(Input::Bet(100)), &mut deck);
    let state = run(&mut table, state, act(HandAction::Split), &mut deck);
    let state = run(&mut table, state, act(HandAction::Split), &mut deck);
    match &state {
        GameState::PlayPlayerTurn { current_turn, .. } => {
            assert_eq!(current_turn.hands(), 3);
            assert!(current_turn.current_hand().is_pair());
        }
        other => panic!("unexpected state {:?}", other),
    }
    match table.step(state, act(HandAction::Split), None) {
        Err((GameState::PlayPlayerTurn { current_turn, .. }, error)) => {
            assert_eq!(error, Error::SplitError(SplitError::MaxSplitsReached));
            assert_eq!(current_turn.hands(), 3);
            assert!(current_turn.current_hand().is_pair());
        }
        other => panic!("unexpected result {:?}", other),
    }
    assert!(deck.is_empty());
}

#[test]
fn early_surrender_ends_the_round_for_half_the_bet() {
    let mut table = table(Rules { early_surrender: true, insurance: true, ..Rules::default() });
    let mut deck = cards(&[Rank::Ten, Rank::Ace, Rank::Six, Rank::King]);
    let state = run(&mut table, GameState::Betting, Some(Input::Bet(100)), &mut deck);
    assert!(matches!(state, GameState::OfferEarlySurrender { .. }));
    let state = advance(&mut table, state, Some(Input::Choice(true)), &mut deck);
    match &state {
        GameState::RoundOver { finished_turns, .. } => {
            assert_eq!(finished_turns[0].hands[0].status, Status::Surrendered);
        }
        other => panic!("unexpected state {:?}", other),
    }
    let state = advance(&mut table, state, None, &mut deck);
    assert_eq!(state, GameState::Payout { total_bets: vec![100], winnings: vec![50] });
}

#[test]
fn insurance_is_offered_after_early_surrender_was_declined() {
    let mut table = table(Rules { early_surrender: true, insurance: true, ..Rules::default() });
    let mut deck = cards(&[Rank::Ten, Rank::Ace, Rank::Six, Rank::Five]);
    let state = run(&mut table, GameState::Betting, Some(Input::Bet(100)), &mut deck);
    let state = advance(&mut table, state, Some(Input::Choice(false)), &mut deck);
    assert!(matches!(state, GameState::OfferInsurance { .. }));
    let state = advance(&mut table, state, Some(Input::Bet(0)), &mut deck);
    assert!(matches!(state, GameState::CheckDealerHoleCard { .. }));
    let state = advance(&mut table, state, None, &mut deck);
    assert!(matches!(state, GameState::PlayPlayerTurn { .. }));
}

#[test]
fn against_a_ten_only_the_hole_card_is_checked_where_nothing_is_offered() {
    let mut table = table(Rules { early_surrender: false, insurance: true, ..Rules::default() });
    let mut deck = cards(&[Rank::Ten, Rank::King, Rank::Six, Rank::Five]);
    let mut state = advance(&mut table, GameState::Betting, Some(Input::Bet(100)), &mut deck);
    for _ in 0..5 {
        state = advance(&mut table, state, None, &mut deck);
    }
    assert!(matches!(state, GameState::CheckDealerHoleCard { .. }));
}

#[test]
fn the_dealer_hits_a_soft_seventeen_where_the_table_says_so() {
    let mut table = table(Rules { dealer_soft_17: DealerSoft17Action::Hit, ..Rules::default() });
    let mut deck = cards(&[Rank::Ten, Rank::Six, Rank::Nine, Rank::Ace, Rank::Ten, Rank::Two]);
    let state = run(&mut table, GameState::Betting, Some(Input::Bet(100)), &mut deck);
    let mut state = advance(&mut table, state, act(HandAction::Stand), &mut deck);
    while !matches!(state, GameState::RoundOver { .. }) {
        state = advance(&mut table, state, None, &mut deck);
    }
    match &state {
        // 6 + A = soft 17, + 10 = hard 17, stands
        GameState::RoundOver { dealer_hand, .. } => {
            assert_eq!(dealer_hand.value.total, 17);
            assert!(!dealer_hand.value.soft);
            assert_eq!(dealer_hand.status, Status::Stood);
        }
        other => panic!("unexpected state {:?}", other),
    }
    assert_eq!(deck.len(), 1);
}

#[test]
fn the_shoe_is_shuffled_after_the_payout_where_it_is_due() {
    let mut table = Table::new(Shoe::new(1, Penetration { numerator: 0, denominator: 1 }), Rules::default());
    let payout = GameState::Payout { total_bets: vec![100], winnings: vec![0] };
    assert_eq!(table.step(payout, None, None), Ok(GameState::Shuffle));
    table.shoe.draw_card();
    assert_eq!(table.step(GameState::Shuffle, None, None), Ok(GameState::Betting));
    assert_eq!(table.shoe.cards_drawn(), 0);
    let mut table = Table::new(Shoe::new(1, Penetration { numerator: 1, denominator: 2 }), Rules::default());
    let payout = GameState::Payout { total_bets: vec![100], winnings: vec![0] };
    assert_eq!(table.step(payout, None, None), Ok(GameState::Betting));
}
