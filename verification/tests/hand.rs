use blackjack_core::card::hand::{DealerHand, PlayerHand, Status, Value};
use blackjack_core::card::{Card, Rank, Suit};
use blackjack_core::rules::{BlackjackPayout, DealerSoft17Action};

fn card(rank: Rank) -> Card {
    Card { rank, suit: Suit::Hearts }
}

fn player(ranks: &[Rank], bet: u32) -> PlayerHand {
    let mut hand = PlayerHand::new(card(ranks[0]), bet);
    for rank in &ranks[1..] {
        hand.add_assign(card(*rank));
    }
    hand
}

fn dealer(ranks: &[Rank], action: DealerSoft17Action) -> DealerHand {
    let mut hand = DealerHand::new(card(ranks[0]), action);
    for rank in &ranks[1..] {
        hand.add_assign(card(*rank));
    }
    hand
}

#[test]
fn a_new_hand_holds_one_card_and_is_in_play() {
    let hand = PlayerHand::new(card(Rank::Nine), 25);
    assert_eq!(hand.bet, 25);
    assert_eq!(hand.size(), 1);
    assert_eq!(hand.status, Status::InPlay);
    assert_eq!(hand.value, Value { soft: false, total: 9 });
    assert_eq!(hand.cards, vec![card(Rank::Nine)]);
    let hand = PlayerHand::new(card(Rank::Ace), 25);
    assert_eq!(hand.value, Value { soft: true, total: 11 });
}

#[test]
fn a_card_updates_value_and_status() {
    let hand = player(&[Rank::Ten, Rank::Seven], 10);
    assert_eq!(hand.value, Value { soft: false, total: 17 });
    assert_eq!(hand.status, Status::InPlay);
    assert_eq!(hand.size(), 2);
    let hand = player(&[Rank::Ten, Rank::Seven, Rank::Five], 10);
    assert_eq!(hand.value, Value { soft: false, total: 22 });
    assert_eq!(hand.status, Status::Bust);
    let hand = player(&[Rank::Ace, Rank::King], 10);
    assert_eq!(hand.value, Value { soft: true, total: 21 });
    assert_eq!(hand.status, Status::Blackjack);
    let hand = player(&[Rank::Seven, Rank::Seven, Rank::Seven], 10);
    assert_eq!(hand.value, Value { soft: false, total: 21 });
    assert_eq!(hand.status, Status::Stood);
    let hand = player(&[Rank::Ace, Rank::Six, Rank::Ten], 10);
    assert_eq!(hand.value, Value { soft: false, total: 17 });
    assert_eq!(hand.status, Status::InPlay);
    let hand = player(&[Rank::Ace, Rank::Ace], 10);
    assert_eq!(hand.value, Value { soft: true, total: 12 });
    let hand = player(&[Rank::Ace, Rank::Ace, Rank::Ace, Rank::Eight], 10);
    assert_eq!(hand.value, Value { soft: true, total: 21 });
    assert_eq!(hand.status, Status::Stood);
}

#[test]
fn stand_ends_a_hand() {
    let mut hand = player(&[Rank::Ten, Rank::Seven], 10);
    hand.stand();
    assert_eq!(hand.status, Status::Stood);
    assert_eq!(hand.value.total, 17);
    assert_eq!(hand.bet, 10);
}

#[test]
fn double_doubles_the_bet_and_stands() {
    let mut hand = player(&[Rank::Five, Rank::Six], 10);
    hand.double(card(Rank::Nine));
    assert_eq!(hand.bet, 20);
    assert_eq!(hand.status, Status::Stood);
    assert_eq!(hand.value.total, 20);
    assert_eq!(hand.size(), 3);
    let mut hand = player(&[Rank::Ten, Rank::Six], 10);
    hand.double(card(Rank::Nine));
    assert_eq!(hand.bet, 20);
    assert_eq!(hand.status, Status::Bust);
    assert_eq!(hand.value.total, 25);
}

#[test]
fn split_makes_two_hands_of_one_card() {
    let mut hand = PlayerHand::new(Card { rank: Rank::Eight, suit: Suit::Clubs }, 40);
    hand.add_assign(Card { rank: Rank::Eight, suit: Suit::Spades });
    assert!(hand.is_pair());
    let new_hand = hand.split();
    assert_eq!(hand.cards, vec![Card { rank: Rank::Eight, suit: Suit::Clubs }]);
    assert_eq!(hand.value, Value { soft: false, total: 8 });
    assert_eq!(hand.status, Status::InPlay);
    assert_eq!(hand.bet, 40);
    assert_eq!(new_hand.cards, vec![Card { rank: Rank::Eight, suit: Suit::Spades }]);
    assert_eq!(new_hand.value, Value { soft: false, total: 8 });
    assert_eq!(new_hand.status, Status::InPlay);
    assert_eq!(new_hand.bet, 40);
}

#[test]
fn split_aces_are_soft_elevens() {
    let mut hand = player(&[Rank::Ace, Rank::Ace], 5);
    let new_hand = hand.split();
    assert_eq!(hand.value, Value { soft: true, total: 11 });
    assert_eq!(new_hand.value, Value { soft: true, total: 11 });
}

#[test]
fn a_pair_is_two_cards_of_one_rank() {
    assert!(player(&[Rank::Eight, Rank::Eight], 1).is_pair());
    assert!(!player(&[Rank::Ten, Rank::King], 1).is_pair());
    assert!(!player(&[Rank::Eight], 1).is_pair());
    assert!(!player(&[Rank::Two, Rank::Two, Rank::Two], 1).is_pair());
}

#[test]
fn composed_of_takes_either_order() {
    let hand = player(&[Rank::Ten, Rank::Five], 1);
    assert!(hand.composed_of(10, 5));
    assert!(hand.composed_of(5, 10));
    assert!(!hand.composed_of(9, 6));
    assert!(!hand.composed_of(10, 10));
    let hand = player(&[Rank::King, Rank::Five], 1);
    assert!(hand.composed_of(10, 5));
    let hand = player(&[Rank::Five, Rank::Five, Rank::Five], 1);
    assert!(!hand.composed_of(5, 5));
}

#[test]
fn surrender_ends_a_hand() {
    let mut hand = player(&[Rank::Ten, Rank::Six], 10);
    hand.surrender();
    assert_eq!(hand.status, Status::Surrendered);
    assert_eq!(hand.bet, 10);
}

#[test]
fn a_terminal_hand_keeps_its_status_through_a_split() {
    let mut hand = player(&[Rank::Nine, Rank::Nine], 10);
    hand.stand();
    let _ = hand.split();
    assert_eq!(hand.status, Status::Stood);
}

#[test]
fn dealer_shows_the_first_card() {
    let hand = dealer(&[Rank::Six, Rank::Ace], DealerSoft17Action::Hit);
    assert_eq!(hand.showing(), 6);
    let hand = dealer(&[Rank::Ace, Rank::Six], DealerSoft17Action::Hit);
    assert_eq!(hand.showing(), 11);
    let hand = dealer(&[Rank::King], DealerSoft17Action::Stand);
    assert_eq!(hand.showing(), 10);
    assert_eq!(hand.status, Status::InPlay);
    assert!(!hand.hits_on_soft_17());
}

#[test]
fn dealer_status_follows_the_total_and_the_soft_17_rule() {
    let hand = dealer(&[Rank::Ace, Rank::Six], DealerSoft17Action::Hit);
    assert!(hand.hits_on_soft_17());
    assert_eq!(hand.value, Value { soft: true, total: 17 });
    assert_eq!(hand.status, Status::InPlay);
    let hand = dealer(&[Rank::Ace, Rank::Six], DealerSoft17Action::Stand);
    assert_eq!(hand.status, Status::Stood);
    let hand = dealer(&[Rank::Ten, Rank::Seven], DealerSoft17Action::Hit);
    assert_eq!(hand.status, Status::Stood);
    let hand = dealer(&[Rank::Ten, Rank::Six], DealerSoft17Action::Hit);
    assert_eq!(hand.status, Status::InPlay);
    let hand = dealer(&[Rank::Ten, Rank::Six, Rank::Six], DealerSoft17Action::Hit);
    assert_eq!(hand.status, Status::Bust);
    assert_eq!(hand.value.total, 22);
    let hand = dealer(&[Rank::Ace, Rank::King], DealerSoft17Action::Hit);
    assert_eq!(hand.status, Status::Blackjack);
    let hand = dealer(&[Rank::Five, Rank::Six, Rank::Ten], DealerSoft17Action::Hit);
    assert_eq!(hand.value, Value { soft: false, total: 21 });
    assert_eq!(hand.status, Status::Stood);
    let hand = dealer(&[Rank::Ace, Rank::Two, Rank::Four, Rank::Ten], DealerSoft17Action::Hit);
    assert_eq!(hand.value, Value { soft: false, total: 17 });
    assert_eq!(hand.status, Status::Stood);
}

#[test]
fn winnings_for_every_outcome() {
    let stand = DealerSoft17Action::Stand;
    let three_two = BlackjackPayout::ThreeToTwo;
    let dealer_19 = dealer(&[Rank::Ten, Rank::Nine], stand);
    let dealer_bj = dealer(&[Rank::Ace, Rank::Ten], stand);
    let dealer_bust = dealer(&[Rank::Ten, Rank::Six, Rank::Ten], stand);

    let mut surrendered = player(&[Rank::Ten, Rank::Six], 101);
    surrendered.surrender();
    assert_eq!(surrendered.calculate_winnings(&dealer_19, three_two), 50);
    assert_eq!(surrendered.calculate_winnings(&dealer_bj, three_two), 50);

    let blackjack = player(&[Rank::King, Rank::Ace], 100);
    assert_eq!(blackjack.calculate_winnings(&dealer_bj, three_two), 100);
    assert_eq!(blackjack.calculate_winnings(&dealer_19, three_two), 250);
    assert_eq!(blackjack.calculate_winnings(&dealer_19, BlackjackPayout::SixToFive), 220);
    assert_eq!(blackjack.calculate_winnings(&dealer_bust, three_two), 250);

    let mut twenty = player(&[Rank::King, Rank::Queen], 100);
    twenty.stand();
    assert_eq!(twenty.calculate_winnings(&dealer_bj, three_two), 0);
    assert_eq!(twenty.calculate_winnings(&dealer_19, three_two), 200);
    assert_eq!(twenty.calculate_winnings(&dealer_bust, three_two), 200);

    let mut nineteen = player(&[Rank::King, Rank::Nine], 100);
    nineteen.stand();
    assert_eq!(nineteen.calculate_winnings(&dealer_19, three_two), 100);

    let mut eighteen = player(&[Rank::King, Rank::Eight], 100);
    eighteen.stand();
    assert_eq!(eighteen.calculate_winnings(&dealer_19, three_two), 0);
    assert_eq!(eighteen.calculate_winnings(&dealer_bust, three_two), 200);

    let bust = player(&[Rank::King, Rank::Eight, Rank::Five], 100);
    assert_eq!(bust.calculate_winnings(&dealer_19, three_two), 0);
    assert_eq!(bust.calculate_winnings(&dealer_bust, three_two), 0);

    let twenty_one = player(&[Rank::Seven, Rank::Seven, Rank::Seven], 100);
    assert_eq!(twenty_one.calculate_winnings(&dealer_bj, three_two), 0);
    assert_eq!(twenty_one.calculate_winnings(&dealer_19, three_two), 200);
}

#[test]
fn blackjack_payout_rounds_down() {
    let hand = player(&[Rank::King, Rank::Ace], 5);
    assert_eq!(hand.payout_blackjack(BlackjackPayout::ThreeToTwo), 12);
    assert_eq!(hand.payout_blackjack(BlackjackPayout::SixToFive), 11);
    let hand = player(&[Rank::King, Rank::Ace], 1);
    assert_eq!(hand.payout_blackjack(BlackjackPayout::ThreeToTwo), 2);
    assert_eq!(hand.payout_blackjack(BlackjackPayout::SixToFive), 2);
    let hand = player(&[Rank::King, Rank::Ace], 1_227_133_513);
    assert_eq!(hand.payout_blackjack(BlackjackPayout::ThreeToTwo), 3_067_833_782);
    assert_eq!(hand.payout_blackjack(BlackjackPayout::SixToFive), 2_699_693_728);
    // The largest bets whose blackjack can still be paid
    let hand = player(&[Rank::King, Rank::Ace], 1_717_986_918);
    assert_eq!(hand.payout_blackjack(BlackjackPayout::ThreeToTwo), u32::MAX);
    let hand = player(&[Rank::King, Rank::Ace], 1_952_257_861);
    assert_eq!(hand.payout_blackjack(BlackjackPayout::SixToFive), 4_294_967_294);
}

#[test]
fn plain_payouts() {
    let hand = player(&[Rank::King, Rank::Nine], 7);
    assert_eq!(hand.payout_win(), 14);
    assert_eq!(hand.payout_push(), 7);
    assert_eq!(hand.payout_surrender(), 3);
    assert_eq!(hand.payout_loss(), 0);
}

#[test]
fn the_cards_of_a_dealer_can_be_read() {
    let hand = dealer(&[Rank::Six, Rank::Ace], DealerSoft17Action::Hit);
    assert_eq!(hand.cards, vec![card(Rank::Six), card(Rank::Ace)]);
    assert_eq!(hand.soft_17_action, DealerSoft17Action::Hit);
}
