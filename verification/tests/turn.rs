use blackjack_core::card::hand::{
    ActiveTurn, DealerHand, FinishedTurn, PendingTurn, PlayerBet, PlayerHand, Status,
};
use blackjack_core::card::{Card, Rank, Suit};
use blackjack_core::rules::{BlackjackPayout, DealerSoft17Action};

fn card(rank: Rank) -> Card {
    Card { rank, suit: Suit::Diamonds }
}

fn hand(ranks: &[Rank], bet: u32) -> PlayerHand {
    let mut hand = PlayerHand::new(card(ranks[0]), bet);
    for rank in &ranks[1..] {
        hand.add_assign(card(*rank));
    }
    hand
}

fn dealer(ranks: &[Rank]) -> DealerHand {
    let mut hand = DealerHand::new(card(ranks[0]), DealerSoft17Action::Stand);
    for rank in &ranks[1..] {
        hand.add_assign(card(*rank));
    }
    hand
}

#[test]
fn a_pending_turn_starts_without_insurance() {
    let turn = PendingTurn::from(hand(&[Rank::Ten, Rank::Seven], 30));
    assert_eq!(turn.insurance_bet, 0);
    assert_eq!(turn.hand.bet, 30);
    let bet = PlayerBet { bet: 30, insurance_bet: 15 };
    assert_eq!(bet.bet, 2 * bet.insurance_bet);
}

#[test]
fn an_active_turn_starts_with_one_hand() {
    let turn = ActiveTurn::from(PendingTurn { hand: hand(&[Rank::Ten, Rank::Seven], 30), insurance_bet: 4 });
    assert_eq!(turn.hands(), 1);
    assert_eq!(turn.current_hand().value.total, 17);
    assert!(!turn.has_more_hands_than(1));
    assert!(turn.has_more_hands_than(0));
    let same: ActiveTurn = PendingTurn { hand: hand(&[Rank::Ten, Rank::Seven], 30), insurance_bet: 4 }.into();
    assert_eq!(turn, same);
}

#[test]
fn continue_playing_keeps_a_hand_in_play() {
    let turn = ActiveTurn::from(PendingTurn::from(hand(&[Rank::Ten, Rank::Seven], 30)));
    let turn = turn.continue_playing().unwrap();
    assert_eq!(turn.current_hand().value.total, 17);
    assert_eq!(turn.hands(), 1);
}

#[test]
fn hands_are_played_and_finished_in_the_order_they_were_made() {
    let mut turn = ActiveTurn::from(PendingTurn { hand: hand(&[Rank::Eight, Rank::Three], 10), insurance_bet: 3 });
    turn.defer(hand(&[Rank::Eight, Rank::Nine], 10));
    turn.defer(hand(&[Rank::Ace, Rank::King], 10));
    turn.defer(hand(&[Rank::Eight, Rank::Two], 10));
    assert_eq!(turn.hands(), 4);
    assert!(turn.has_more_hands_than(3));
    assert!(!turn.has_more_hands_than(4));

    turn.current_hand_mut().stand();
    let mut turn = turn.continue_playing().unwrap();
    assert_eq!(turn.current_hand().value.total, 17);
    assert_eq!(turn.hands(), 4);

    turn.current_hand_mut().add_assign(card(Rank::Ten));
    assert_eq!(turn.current_hand().status, Status::Bust);
    // The blackjack is skipped: the next hand in play is the last one
    let mut turn = turn.continue_playing().unwrap();
    assert_eq!(turn.current_hand().value.total, 10);

    turn.current_hand_mut().double(card(Rank::Ten));
    let finished = turn.continue_playing().unwrap_err();
    assert_eq!(finished.insurance_bet, 3);
    let totals: Vec<u8> = finished.hands.iter().map(|hand| hand.value.total).collect();
    assert_eq!(totals, vec![11, 27, 21, 20]);
    let statuses: Vec<Status> = finished.hands.iter().map(|hand| hand.status).collect();
    assert_eq!(statuses, vec![Status::Stood, Status::Bust, Status::Blackjack, Status::Stood]);
    assert_eq!(finished.total_bet(), 10 + 10 + 10 + 20 + 3);
}

#[test]
fn a_turn_without_a_hand_in_play_is_finished() {
    let turn = ActiveTurn::from(PendingTurn::from(hand(&[Rank::Ace, Rank::King], 30)));
    let finished = turn.continue_playing().unwrap_err();
    assert_eq!(finished.hands.len(), 1);
    assert_eq!(finished.hands[0].status, Status::Blackjack);
    assert_eq!(finished.insurance_bet, 0);
}

#[test]
fn a_turn_that_was_never_played_is_finished_as_it_is() {
    let finished = FinishedTurn::from(PendingTurn { hand: hand(&[Rank::Ten, Rank::Seven], 30), insurance_bet: 15 });
    assert_eq!(finished.hands.len(), 1);
    assert_eq!(finished.hands[0].status, Status::InPlay);
    assert_eq!(finished.insurance_bet, 15);
    assert_eq!(finished.total_bet(), 45);
    let same: FinishedTurn = PendingTurn { hand: hand(&[Rank::Ten, Rank::Seven], 30), insurance_bet: 15 }.into();
    assert_eq!(finished, same);
}

#[test]
fn insurance_pays_double_against_a_blackjack_only() {
    let mut stood = hand(&[Rank::Ten, Rank::Nine], 100);
    stood.stand();
    let turn = FinishedTurn { hands: vec![stood], insurance_bet: 50 };
    let blackjack = dealer(&[Rank::Ace, Rank::King]);
    assert_eq!(turn.calculate_winnings(&blackjack, BlackjackPayout::ThreeToTwo), 100);
    let eighteen = dealer(&[Rank::Ace, Rank::Seven]);
    assert_eq!(turn.calculate_winnings(&eighteen, BlackjackPayout::ThreeToTwo), 200);
    let twenty = dealer(&[Rank::King, Rank::Queen]);
    assert_eq!(turn.calculate_winnings(&twenty, BlackjackPayout::ThreeToTwo), 0);
}

#[test]
fn insurance_is_paid_once_for_all_hands_of_a_turn() {
    let mut first = hand(&[Rank::Ten, Rank::Nine], 100);
    first.stand();
    let second = hand(&[Rank::Ace, Rank::Queen], 100);
    let turn = FinishedTurn { hands: vec![first, second], insurance_bet: 50 };
    assert_eq!(turn.total_bet(), 250);
    let blackjack = dealer(&[Rank::Ace, Rank::King]);
    assert_eq!(turn.calculate_winnings(&blackjack, BlackjackPayout::ThreeToTwo), 100 + 0 + 100);
    let seventeen = dealer(&[Rank::Ten, Rank::Seven]);
    assert_eq!(turn.calculate_winnings(&seventeen, BlackjackPayout::ThreeToTwo), 200 + 250);
    assert_eq!(turn.calculate_winnings(&seventeen, BlackjackPayout::SixToFive), 200 + 220);
}
