use blackjack_core::basic_strategy;
use blackjack_core::card::shoe::{Penetration, Shoe};
use blackjack_core::game::{HandAction, Input, Table};
use blackjack_core::rules::{DealerSoft17Action, Rules};
use blackjack_core::state::GameState;

/// What a player who follows basic strategy puts in, where the state waits.
fn input(table: &Table, state: &GameState) -> Option<Input> {
    match state {
        GameState::PlayPlayerTurn { current_turn, .. }
            if !basic_strategy::is_covered(table, current_turn) =>
        {
            Some(Input::Action(HandAction::Hit))
        }
        state => basic_strategy::basic_strategy_input(table, state),
    }
}

fn rules() -> Rules {
    Rules {
        insurance: true,
        early_surrender: true,
        dealer_soft_17: DealerSoft17Action::Hit,
        ..Rules::default()
    }
}

#[test]
fn rounds_are_played_step_by_step_from_a_real_shoe() {
    let mut table = Table::new(Shoe::new(2, Penetration { numerator: 1, denominator: 2 }), rules());
    let mut state = GameState::Betting;
    let mut rounds = 0;
    let mut steps = 0;
    while rounds < 300 {
        let given = input(&table, &state);
        let waits = state.awaits_input();
        assert_eq!(given.is_some(), waits);
        let was_payout = matches!(state, GameState::Payout { .. });
        let was_over = matches!(state, GameState::RoundOver { .. });
        state = table.progress(state, given).unwrap();
        if was_over {
            rounds += 1;
            assert_eq!(table.statistics.turns_played, rounds);
            assert!(matches!(state, GameState::Payout { .. }));
        }
        if was_payout {
            assert!(matches!(state, GameState::Shuffle | GameState::Betting));
        }
        assert!(table.shoe.cards_drawn() < 104);
        steps += 1;
        assert!(steps < 100_000);
    }
    let statistics = table.statistics;
    assert!(statistics.hands_played >= 300);
    assert_eq!(statistics.wins + statistics.pushes + statistics.losses, statistics.hands_played);
    assert!(statistics.total_bet >= 300 * 100);
}

#[test]
fn fast_forward_stops_only_where_the_player_is_asked() {
    let mut table = Table::new(Shoe::new(6, Penetration { numerator: 3, denominator: 4 }), rules());
    table.fast_forward = true;
    let mut state = GameState::Betting;
    let mut bets = 0;
    for _ in 0..5_000 {
        assert!(state.awaits_input());
        if matches!(state, GameState::Betting) {
            assert_eq!(table.statistics.turns_played, bets);
            bets += 1;
        }
        let given = input(&table, &state);
        state = table.progress(state, given).unwrap();
    }
    assert!(table.statistics.turns_played >= 1_000);
    assert!(table.statistics.hands_played >= table.statistics.turns_played);
}

#[test]
fn fast_forward_and_single_steps_agree_on_the_statistics_of_a_round_without_cards() {
    // From the end of a round on no card is dealt, so both ways are the same
    for fast_forward in [false, true] {
        let mut table = Table::new(Shoe::new(1, Penetration { numerator: 0, denominator: 1 }), rules());
        table.fast_forward = fast_forward;
        let mut state = GameState::Payout { total_bets: vec![100], winnings: vec![200] };
        while !state.awaits_input() {
            state = table.progress(state, None).unwrap();
        }
        assert_eq!(state, GameState::Betting);
        assert_eq!(table.shoe.cards_drawn(), 0);
    }
}

#[test]
fn basic_strategy_answers_what_the_state_asks() {
    let table = Table::new(Shoe::new(6, Penetration { numerator: 3, denominator: 4 }), rules());
    assert_eq!(basic_strategy::basic_strategy_input(&table, &GameState::Betting), Some(Input::Bet(100)));
    assert_eq!(basic_strategy::basic_strategy_input(&table, &GameState::Shuffle), None);
    let payout = GameState::Payout { total_bets: vec![1], winnings: vec![1] };
    assert_eq!(basic_strategy::basic_strategy_input(&table, &payout), None);
}
