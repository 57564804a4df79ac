use blackjack_core::card::hand::{
    ActiveTurn, DealerHand, FinishedTurn, PendingTurn, PlayerHand, Status,
};
use blackjack_core::card::shoe::{Penetration, Shoe};
use blackjack_core::card::{Card, Rank, Suit};
use blackjack_core::game::{
    parse_hand_action, BetError, DoubleError, Error, HandAction, Input, SplitError, SurrenderError,
    Table,
};
use blackjack_core::rules::{DealerSoft17Action, Rules};
use blackjack_core::state::GameState;
use blackjack_core::statistics::Statistics;

fn card(rank: Rank) -> Card {
    Card { rank, suit: Suit::Clubs }
}

fn table(rules: Rules) -> Table {
    Table::new(Shoe::new(4, Penetration { numerator: 1, denominator: 2 }), rules)
}

fn hand(ranks: &[Rank], bet: u32) -> PlayerHand {
    let mut hand = PlayerHand::new(card(ranks[0]), bet);
    for rank in &ranks[1..] {
        hand.add_assign(card(*rank));
    }
    hand
}

fn dealer(ranks: &[Rank]) -> DealerHand {
    let mut hand = DealerHand::new(card(ranks[0]), DealerSoft17Action::Stand);
    for rank in &ranks[1..] {
        hand.add_assign(card(*rank));
    }
    hand
}

fn turn(ranks: &[Rank], bet: u32) -> ActiveTurn {
    ActiveTurn::from(PendingTurn::from(hand(ranks, bet)))
}

fn playing(ranks: &[Rank]) -> GameState {
    GameState::PlayPlayerTurn {
        pending_turns: vec![],
        current_turn: turn(ranks, 100),
        finished_turns: vec![],
        dealer_hand: dealer(&[Rank::Six, Rank::Ten]),
    }
}

fn offers(insurance: bool) -> GameState {
    let player_turns = vec![PendingTurn::from(hand(&[Rank::Ten, Rank::Six], 100))];
    let dealer_hand = dealer(&[Rank::Ace, Rank::Nine]);
    if insurance {
        GameState::OfferInsurance { player_turns, dealer_hand }
    } else {
        GameState::OfferEarlySurrender { player_turns, dealer_hand }
    }
}

#[test]
fn a_new_table_has_played_nothing() {
    let table = table(Rules::default());
    assert_eq!(table.statistics, Statistics::new());
    assert_eq!(table.rules, Rules::default());
    assert!(!table.fast_forward);
    assert_eq!(table.shoe.cards_drawn(), 0);
}

#[test]
fn default_rules() {
    let rules = Rules::default();
    assert_eq!(rules.min_bet, Some(100));
    assert_eq!(rules.max_bet, None);
    assert_eq!(rules.max_splits, Some(5));
    assert_eq!(rules.dealer_soft_17, DealerSoft17Action::Stand);
    assert!(rules.late_surrender && rules.double_after_split && rules.split_aces);
    assert!(!rules.insurance && !rules.early_surrender);
}

#[test]
fn a_bet_within_the_limits_starts_the_round() {
    let mut table = table(Rules { min_bet: Some(1), max_bet: Some(100), ..Rules::default() });
    assert_eq!(
        table.progress(GameState::Betting, Some(Input::Bet(50))),
        Ok(GameState::DealFirstPlayerCards { bets: vec![50], player_turns: vec![] })
    );
    assert_eq!(
        table.progress(GameState::Betting, Some(Input::Bet(101))),
        Err((GameState::Betting, Error::BetError(BetError::TooHigh)))
    );
    assert_eq!(
        table.progress(GameState::Betting, Some(Input::Bet(0))),
        Err((GameState::Betting, Error::BetError(BetError::TooLow)))
    );
    assert_eq!(
        table.progress(GameState::Betting, Some(Input::Bet(1))),
        Ok(GameState::DealFirstPlayerCards { bets: vec![1], player_turns: vec![] })
    );
    assert_eq!(
        table.progress(GameState::Betting, Some(Input::Bet(100))),
        Ok(GameState::DealFirstPlayerCards { bets: vec![100], player_turns: vec![] })
    );
    assert_eq!(table.shoe.cards_drawn(), 0);
}

#[test]
fn a_table_without_limits_takes_any_bet() {
    let mut table = table(Rules { min_bet: None, max_bet: None, ..Rules::default() });
    assert!(table.progress(GameState::Betting, Some(Input::Bet(0))).is_ok());
    assert!(table.progress(GameState::Betting, Some(Input::Bet(1_227_133_513))).is_ok());
}

#[test]
fn the_wrong_kind_of_input_leaves_the_state_as_it_is() {
    let wrong_for_betting = [None, Some(Input::Choice(true)), Some(Input::Action(HandAction::Hit))];
    let wrong_for_choice = [None, Some(Input::Bet(10)), Some(Input::Action(HandAction::Stand))];
    let wrong_for_action = [None, Some(Input::Bet(10)), Some(Input::Choice(false))];
    for fast_forward in [false, true] {
        let mut table = table(Rules::default());
        table.fast_forward = fast_forward;
        for input in wrong_for_betting {
            assert_eq!(
                table.progress(GameState::Betting, input),
                Err((GameState::Betting, Error::WrongInput))
            );
        }
        for input in wrong_for_choice {
            assert_eq!(table.progress(offers(false), input), Err((offers(false), Error::WrongInput)));
        }
        for input in wrong_for_betting {
            assert_eq!(table.progress(offers(true), input), Err((offers(true), Error::WrongInput)));
        }
        for input in wrong_for_action {
            assert_eq!(
                table.progress(playing(&[Rank::Ten, Rank::Six]), input),
                Err((playing(&[Rank::Ten, Rank::Six]), Error::WrongInput))
            );
        }
        assert_eq!(table.shoe.cards_drawn(), 0);
        assert_eq!(table.statistics, Statistics::new());
    }
}

#[test]
fn a_state_that_does_not_wait_ignores_the_input() {
    let mut table = table(Rules::default());
    let state = GameState::CheckDealerHoleCard {
        player_turns: vec![PendingTurn::from(hand(&[Rank::Ten, Rank::Six], 100))],
        dealer_hand: dealer(&[Rank::Ace, Rank::King]),
    };
    let next = table.progress(state, Some(Input::Bet(3))).unwrap();
    assert!(matches!(next, GameState::RoundOver { .. }));
    assert_eq!(table.progress(GameState::Shuffle, Some(Input::Choice(true))), Ok(GameState::Betting));
}

#[test]
fn double_needs_two_cards_and_the_rule_after_a_split() {
    let mut table = table(Rules { double_after_split: false, ..Rules::default() });
    let double = Some(Input::Action(HandAction::Double));
    assert_eq!(
        table.progress(playing(&[Rank::Five, Rank::Three, Rank::Two]), double),
        Err((playing(&[Rank::Five, Rank::Three, Rank::Two]), Error::DoubleError(DoubleError::NotTwoCards)))
    );
    let next = table.progress(playing(&[Rank::Five, Rank::Six]), double).unwrap();
    assert!(matches!(next, GameState::PlayerDouble { .. }));

    let mut split = turn(&[Rank::Five, Rank::Six], 100);
    split.defer(hand(&[Rank::Five, Rank::Ten], 100));
    assert_eq!(table.check_double_allowed(&split), Err(DoubleError::DoubleAfterSplitNotAllowed));
    table.rules.double_after_split = true;
    assert_eq!(table.check_double_allowed(&split), Ok(()));
    assert_eq!(table.check_double_allowed(&turn(&[Rank::Five, Rank::Six, Rank::Two], 1)), Err(DoubleError::NotTwoCards));
}

#[test]
fn split_needs_a_pair_the_rule_for_aces_and_a_split_left() {
    let mut table = table(Rules { split_aces: false, max_splits: Some(1), ..Rules::default() });
    let split = Some(Input::Action(HandAction::Split));
    assert_eq!(
        table.progress(playing(&[Rank::Ten, Rank::King]), split),
        Err((playing(&[Rank::Ten, Rank::King]), Error::SplitError(SplitError::NotAPair)))
    );
    assert_eq!(
        table.progress(playing(&[Rank::Ace, Rank::Ace]), split),
        Err((playing(&[Rank::Ace, Rank::Ace]), Error::SplitError(SplitError::SplitAcesNotAllowed)))
    );
    let next = table.progress(playing(&[Rank::Nine, Rank::Nine]), split).unwrap();
    assert!(matches!(next, GameState::PlayerSplit { .. }));

    let mut twice = turn(&[Rank::Nine, Rank::Nine], 100);
    twice.defer(hand(&[Rank::Nine, Rank::Ten], 100));
    assert_eq!(table.check_split_allowed(&twice), Err(SplitError::MaxSplitsReached));
    table.rules.max_splits = None;
    assert_eq!(table.check_split_allowed(&twice), Ok(()));
    table.rules.split_aces = true;
    assert_eq!(table.check_split_allowed(&turn(&[Rank::Ace, Rank::Ace], 1)), Ok(()));
    assert_eq!(table.check_split_allowed(&turn(&[Rank::Ace, Rank::Ace, Rank::Ace], 1)), Err(SplitError::NotAPair));
}

#[test]
fn surrender_needs_two_cards_and_the_rule() {
    let mut table = table(Rules { late_surrender: false, ..Rules::default() });
    let surrender = Some(Input::Action(HandAction::Surrender));
    assert_eq!(
        table.progress(playing(&[Rank::Ten, Rank::Six]), surrender),
        Err((playing(&[Rank::Ten, Rank::Six]), Error::SurrenderError(SurrenderError::LateSurrenderNotAllowed)))
    );
    assert_eq!(
        table.progress(playing(&[Rank::Ten, Rank::Three, Rank::Three]), surrender),
        Err((playing(&[Rank::Ten, Rank::Three, Rank::Three]), Error::SurrenderError(SurrenderError::NotTwoCards)))
    );
    table.rules.late_surrender = true;
    let next = table.progress(playing(&[Rank::Ten, Rank::Six]), surrender).unwrap();
    assert!(matches!(next, GameState::PlayerSurrender { .. }));
    let next = table.progress(next, None).unwrap();
    match next {
        GameState::RevealHoleCard { finished_turns, dealer_hand } => {
            assert_eq!(finished_turns[0].hands[0].status, Status::Surrendered);
            // no hand was stood on: the dealer stands without drawing
            assert_eq!(dealer_hand.status, Status::Stood);
            assert_eq!(dealer_hand.value.total, 16);
        }
        other => panic!("unexpected state {:?}", other),
    }
    assert_eq!(table.check_surrender_allowed(&hand(&[Rank::Ten, Rank::Six], 1)), Ok(()));
}

#[test]
fn hit_and_stand_are_always_allowed() {
    let mut table = table(Rules::default());
    let next = table.progress(playing(&[Rank::Ten, Rank::Six]), Some(Input::Action(HandAction::Hit))).unwrap();
    assert!(matches!(next, GameState::PlayerHit { .. }));
    let next = table.progress(next, None).unwrap();
    assert!(matches!(next, GameState::PlayPlayerTurn { .. } | GameState::RevealHoleCard { .. }));
    assert_eq!(table.shoe.cards_drawn(), 1);
    let next = table.progress(playing(&[Rank::Ten, Rank::Six]), Some(Input::Action(HandAction::Stand))).unwrap();
    assert!(matches!(next, GameState::PlayerStand { .. }));
    let next = table.progress(next, None).unwrap();
    match next {
        GameState::RevealHoleCard { finished_turns, dealer_hand } => {
            assert_eq!(finished_turns[0].hands[0].status, Status::Stood);
            assert_eq!(dealer_hand.status, Status::InPlay);
        }
        other => panic!("unexpected state {:?}", other),
    }
}

#[test]
fn errors_in_words() {
    assert_eq!(Error::WrongInput.to_string(), "Wrong input");
    assert_eq!(Error::BetError(BetError::TooLow).to_string(), "Bet too low");
    assert_eq!(Error::BetError(BetError::TooHigh).to_string(), "Bet too high");
    assert_eq!(Error::DoubleError(DoubleError::NotTwoCards).to_string(), "Not two cards");
    assert_eq!(
        Error::DoubleError(DoubleError::DoubleAfterSplitNotAllowed).to_string(),
        "Double after split not allowed"
    );
    assert_eq!(Error::SplitError(SplitError::NotAPair).to_string(), "Not a pair");
    assert_eq!(Error::SplitError(SplitError::MaxSplitsReached).to_string(), "Max splits reached");
    assert_eq!(Error::SplitError(SplitError::SplitAcesNotAllowed).to_string(), "Split aces not allowed");
    assert_eq!(Error::SurrenderError(SurrenderError::NotTwoCards).to_string(), "Not two cards");
    assert_eq!(
        Error::SurrenderError(SurrenderError::LateSurrenderNotAllowed).to_string(),
        "Late surrender not allowed"
    );
}

#[test]
fn actions_are_read_from_words_and_letters() {
    assert_eq!(parse_hand_action("s"), Ok(HandAction::Stand));
    assert_eq!(parse_hand_action("stand"), Ok(HandAction::Stand));
    assert_eq!(parse_hand_action("h"), Ok(HandAction::Hit));
    assert_eq!(parse_hand_action("hit"), Ok(HandAction::Hit));
    assert_eq!(parse_hand_action("d"), Ok(HandAction::Double));
    assert_eq!(parse_hand_action("double"), Ok(HandAction::Double));
    assert_eq!(parse_hand_action("p"), Ok(HandAction::Split));
    assert_eq!(parse_hand_action("split"), Ok(HandAction::Split));
    assert_eq!(parse_hand_action("u"), Ok(HandAction::Surrender));
    assert_eq!(parse_hand_action("surrender"), Ok(HandAction::Surrender));
    assert_eq!(parse_hand_action(""), Err(()));
    assert_eq!(parse_hand_action("Stand"), Err(()));
    assert_eq!(parse_hand_action("hit "), Err(()));
    assert_eq!(parse_hand_action("x"), Err(()));
}

#[test]
fn states_know_whether_they_wait_and_whether_they_deal() {
    assert!(GameState::Betting.awaits_input());
    assert!(!GameState::Betting.deals_card());
    assert!(offers(true).awaits_input());
    assert!(offers(false).awaits_input());
    assert!(playing(&[Rank::Ten, Rank::Six]).awaits_input());
    assert!(!GameState::Shuffle.awaits_input());
    let first = GameState::DealFirstPlayerCards { bets: vec![5], player_turns: vec![] };
    assert!(first.deals_card() && !first.awaits_input());
    let one_card = GameState::DealSecondPlayerCards {
        player_turns: vec![PendingTurn::from(hand(&[Rank::Ten], 5))],
        dealer_hand: dealer(&[Rank::Six]),
    };
    assert!(one_card.deals_card());
    let two_cards = GameState::DealSecondPlayerCards {
        player_turns: vec![PendingTurn::from(hand(&[Rank::Ten, Rank::Two], 5))],
        dealer_hand: dealer(&[Rank::Six]),
    };
    assert!(!two_cards.deals_card());
    assert!(!GameState::Payout { total_bets: vec![1], winnings: vec![2] }.deals_card());
}

#[test]
fn actions_in_words() {
    assert_eq!(HandAction::Stand.to_string(), "Stand (s)");
    assert_eq!(HandAction::Hit.to_string(), "Hit (h)");
    assert_eq!(HandAction::Double.to_string(), "Double (d)");
    assert_eq!(HandAction::Split.to_string(), "Split (p)");
    assert_eq!(HandAction::Surrender.to_string(), "Surrender (u)");
}

#[test]
fn a_bet_above_the_maximum_is_too_high_however_large() {
    let mut table = table(Rules { min_bet: Some(5), max_bet: Some(500), ..Rules::default() });
    assert_eq!(
        table.progress(GameState::Betting, Some(Input::Bet(2_000_000_000))),
        Err((GameState::Betting, Error::BetError(BetError::TooHigh)))
    );
    assert_eq!(
        table.progress(GameState::Betting, Some(Input::Bet(u32::MAX))),
        Err((GameState::Betting, Error::BetError(BetError::TooHigh)))
    );
    let mut table = table_with_minimum(4_000_000_000);
    assert_eq!(
        table.progress(GameState::Betting, Some(Input::Bet(3_000_000_000))),
        Err((GameState::Betting, Error::BetError(BetError::TooLow)))
    );
}

fn table_with_minimum(min: u32) -> Table {
    table(Rules { min_bet: Some(min), max_bet: None, ..Rules::default() })
}

#[test]
fn the_table_says_beforehand_what_it_refuses() {
    let table = table(Rules { min_bet: Some(10), max_bet: Some(500), late_surrender: false, ..Rules::default() });
    assert_eq!(table.refusal(&GameState::Betting, Some(Input::Bet(9))), Some(Error::BetError(BetError::TooLow)));
    assert_eq!(table.refusal(&GameState::Betting, Some(Input::Bet(501))), Some(Error::BetError(BetError::TooHigh)));
    assert_eq!(table.refusal(&GameState::Betting, Some(Input::Bet(10))), None);
    assert_eq!(table.refusal(&GameState::Betting, Some(Input::Choice(true))), Some(Error::WrongInput));
    assert_eq!(table.refusal(&GameState::Betting, None), Some(Error::WrongInput));
    assert_eq!(table.refusal(&offers(false), Some(Input::Choice(false))), None);
    assert_eq!(table.refusal(&offers(false), Some(Input::Bet(1))), Some(Error::WrongInput));
    assert_eq!(table.refusal(&offers(true), Some(Input::Bet(1))), None);
    assert_eq!(table.refusal(&offers(true), None), Some(Error::WrongInput));
    let pair = playing(&[Rank::Nine, Rank::Nine]);
    assert_eq!(table.refusal(&pair, Some(Input::Action(HandAction::Hit))), None);
    assert_eq!(table.refusal(&pair, Some(Input::Action(HandAction::Stand))), None);
    assert_eq!(table.refusal(&pair, Some(Input::Action(HandAction::Split))), None);
    assert_eq!(table.refusal(&pair, Some(Input::Action(HandAction::Double))), None);
    assert_eq!(
        table.refusal(&pair, Some(Input::Action(HandAction::Surrender))),
        Some(Error::SurrenderError(SurrenderError::LateSurrenderNotAllowed))
    );
    let three = playing(&[Rank::Two, Rank::Three, Rank::Four]);
    assert_eq!(
        table.refusal(&three, Some(Input::Action(HandAction::Double))),
        Some(Error::DoubleError(DoubleError::NotTwoCards))
    );
    assert_eq!(
        table.refusal(&three, Some(Input::Action(HandAction::Split))),
        Some(Error::SplitError(SplitError::NotAPair))
    );
    assert_eq!(table.refusal(&three, Some(Input::Bet(3))), Some(Error::WrongInput));
    assert_eq!(table.refusal(&GameState::Shuffle, Some(Input::Bet(3))), None);
    assert_eq!(table.refusal(&GameState::Shuffle, None), None);
}

#[test]
fn the_turns_that_wait_are_taken_up_last_first_and_ended_hands_are_passed_over() {
    let table = table(Rules::default());
    let mut current = turn(&[Rank::Ten, Rank::Seven], 100);
    current.current_hand_mut().stand();
    let pending = vec![
        PendingTurn::from(hand(&[Rank::Ten, Rank::Two], 10)),
        PendingTurn::from(hand(&[Rank::Ten, Rank::Three], 20)),
        PendingTurn::from(hand(&[Rank::Ace, Rank::King], 30)),
    ];
    let next = table.continue_player_phase_or_go_to_dealer(
        pending,
        current,
        vec![],
        dealer(&[Rank::Six, Rank::Ten]),
    );
    match next {
        GameState::PlayPlayerTurn { pending_turns, current_turn, finished_turns, .. } => {
            assert_eq!(pending_turns.len(), 1);
            assert_eq!(pending_turns[0].hand.bet, 10);
            assert_eq!(current_turn.current_hand().bet, 20);
            assert_eq!(current_turn.current_hand().value.total, 13);
            let bets: Vec<u32> = finished_turns.iter().map(|turn| turn.hands[0].bet).collect();
            assert_eq!(bets, vec![100, 30]);
        }
        other => panic!("unexpected state {:?}", other),
    }
}

#[test]
fn the_dealer_is_next_once_no_turn_is_left_to_play() {
    let table = table(Rules::default());
    let mut current = turn(&[Rank::Ten, Rank::Seven], 100);
    current.current_hand_mut().add_assign(card(Rank::Nine));
    let mut stood = hand(&[Rank::Ten, Rank::Eight], 5);
    stood.stand();
    let finished = vec![FinishedTurn::from(PendingTurn::from(stood))];
    let pending = vec![PendingTurn::from(hand(&[Rank::Ace, Rank::King], 30))];
    let next = table.continue_player_phase_or_go_to_dealer(
        pending,
        current,
        finished,
        dealer(&[Rank::Six, Rank::Ten]),
    );
    match next {
        GameState::RevealHoleCard { finished_turns, dealer_hand } => {
            let bets: Vec<u32> = finished_turns.iter().map(|turn| turn.hands[0].bet).collect();
            assert_eq!(bets, vec![5, 100, 30]);
            // A hand was stood on: the dealer has to play
            assert_eq!(dealer_hand.status, Status::InPlay);
        }
        other => panic!("unexpected state {:?}", other),
    }
    let next = table.continue_player_phase_or_go_to_dealer(
        vec![],
        turn(&[Rank::Ace, Rank::Queen], 1),
        vec![],
        dealer(&[Rank::Six, Rank::Ten]),
    );
    match next {
        GameState::RevealHoleCard { dealer_hand, .. } => assert_eq!(dealer_hand.status, Status::Stood),
        other => panic!("unexpected state {:?}", other),
    }
}

#[test]
fn without_a_player_the_dealer_stands_and_the_round_is_over() {
    let table = table(Rules::default());
    let next = table.start_player_phase_or_end_round(vec![], dealer(&[Rank::Six, Rank::Ten]));
    match next {
        GameState::RoundOver { finished_turns, dealer_hand } => {
            assert!(finished_turns.is_empty());
            assert_eq!(dealer_hand.status, Status::Stood);
            assert_eq!(dealer_hand.value.total, 16);
        }
        other => panic!("unexpected state {:?}", other),
    }
}

#[test]
fn the_first_cards_are_dealt_bet_by_bet() {
    let table = table(Rules::default());
    let next = table.deal_first_player_card(vec![10, 20], vec![], card(Rank::Five));
    match next {
        GameState::DealFirstPlayerCards { bets, player_turns } => {
            assert_eq!(bets, vec![10]);
            assert_eq!(player_turns.len(), 1);
            assert_eq!(player_turns[0].hand.bet, 20);
            let next = table.deal_first_player_card(bets, player_turns, card(Rank::Six));
            match next {
                GameState::DealFirstDealerCard { player_turns } => {
                    let bets: Vec<u32> = player_turns.iter().map(|turn| turn.hand.bet).collect();
                    assert_eq!(bets, vec![20, 10]);
                }
                other => panic!("unexpected state {:?}", other),
            }
        }
        other => panic!("unexpected state {:?}", other),
    }
}
