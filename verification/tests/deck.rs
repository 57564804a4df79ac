use blackjack_core::card::deck::{Deck, DeckError};
use blackjack_core::card::{Card, Rank, Suit};

fn ace() -> Card {
    Card { rank: Rank::Ace, suit: Suit::Spades }
}

fn two() -> Card {
    Card { rank: Rank::Two, suit: Suit::Clubs }
}

#[test]
fn a_new_deck_holds_each_card_once() {
    let deck = Deck::new();
    for ordinal in 0..52 {
        assert_eq!(deck.count(Card::from_ordinal(ordinal)), 1);
    }
}

#[test]
fn times_multiplies_every_count() {
    let mut deck = Deck::new();
    deck.times(6);
    for ordinal in 0..52 {
        assert_eq!(deck.count(Card::from_ordinal(ordinal)), 6);
    }
    deck.times(2);
    assert_eq!(deck.count(ace()), 12);
    deck.times(0);
    assert_eq!(deck.count(two()), 0);
}

#[test]
fn add_and_remove_change_one_count() {
    let mut deck = Deck::new();
    assert_eq!(deck.add(ace()), Ok(()));
    assert_eq!(deck.count(ace()), 2);
    assert_eq!(deck.count(two()), 1);
    assert_eq!(deck.remove(two()), Ok(()));
    assert_eq!(deck.count(two()), 0);
    assert_eq!(deck.count(ace()), 2);
    assert_eq!(deck.remove(two()), Err(DeckError::NotEnoughCards));
    assert_eq!(deck.count(two()), 0);
}

#[test]
fn a_count_stops_at_255() {
    let mut deck = Deck::new();
    deck.times(255);
    assert_eq!(deck.add(ace()), Err(DeckError::TooManyCards));
    assert_eq!(deck.count(ace()), 255);
    assert_eq!(deck.remove(ace()), Ok(()));
    assert_eq!(deck.add(ace()), Ok(()));
    assert_ne!(DeckError::InvalidCard, DeckError::TooManyCards);
}
