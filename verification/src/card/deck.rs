//! A count of how many copies of each card a pile holds.
use crate::card::Card;
use vstd::prelude::*;

verus! {

/// Why a card could not be added to a deck or taken from it.
#[derive(Debug, Clone, Copy, PartialEq, Eq, Structural)]
pub enum DeckError {
    NotEnoughCards,
    TooManyCards,
    InvalidCard,
}

/// How many copies of each of the 52 cards there are.
#[derive(Debug, Clone, Copy, PartialEq, Eq)]
pub struct Deck {
    /// The number of copies of each card, by the card's ordinal
    cards: [u8; 52],
}

impl View for Deck {
    type V = Seq<u8>;

    /// The number of copies of each card, by the card's ordinal.
    closed spec fn view(&self) -> Seq<u8> {
        self.cards@
    }
}

impl Deck {
    /// A deck with one copy of each card.
    pub fn new() -> (deck: Deck)
        ensures
            deck@ =~= Seq::new(52, |i: int| 1u8),
    {
        Deck { cards: [1;52] }
    }

    /// Multiplies the number of copies of every card by `n`.
    pub fn times(&mut self, n: u8)
        requires
            forall|i: int| 0 <= i < 52 ==> old(self)@[i] * n <= u8::MAX,
        ensures
            old(self)@.len() == 52,
            final(self)@.len() == 52,
            forall|i: int| 0 <= i < 52 ==> final(self)@[i] == old(self)@[i] * n,
    {
        let mut i: usize = 0;
        while i < 52
            invariant
                i <= 52,
                self@.len() == 52,
                forall|k: int| 0 <= k < i ==> self@[k] == old(self)@[k] * n,
                forall|k: int| i <= k < 52 ==> self@[k] == old(self)@[k],
                forall|k: int| 0 <= k < 52 ==> old(self)@[k] * n <= u8::MAX,
            decreases 52 - i,
        {
            let count = self.cards[i];
            self.cards[i] = count * n;
            i += 1;
        }
    }

    /// The number of copies of `card`.
    pub fn count(&self, card: Card) -> (count: u8)
        ensures
            self@.len() == 52,
            count == self@[card.ordinal() as int],
    {
        self.cards[card.to_ordinal()]
    }

    /// Adds a copy of `card`, unless the deck already holds 255 of it.
    pub fn add(&mut self, card: Card) -> (added: Result<(), DeckError>)
        ensures
            old(self)@.len() == 52,
            final(self)@.len() == 52,
            old(self)@[card.ordinal() as int] < u8::MAX ==> added is Ok && final(self)@ == old(
                self,
            )@.update(card.ordinal() as int, (old(self)@[card.ordinal() as int] + 1) as u8),
            old(self)@[card.ordinal() as int] == u8::MAX ==> added == Err::<(), DeckError>(
                DeckError::TooManyCards,
            ) && final(self)@ == old(self)@,
    {
        let ordinal = card.to_ordinal();
        let amount = self.cards[ordinal];
        if amount == u8::MAX {
            Err(DeckError::TooManyCards)
        } else {
            self.cards[ordinal] = amount + 1;
            Ok(())
        }
    }

    /// Takes a copy of `card`, unless the deck holds none.
    pub fn remove(&mut self, card: Card) -> (removed: Result<(), DeckError>)
        ensures
            old(self)@.len() == 52,
            final(self)@.len() == 52,
            old(self)@[card.ordinal() as int] > 0 ==> removed is Ok && final(self)@ == old(
                self,
            )@.update(card.ordinal() as int, (old(self)@[card.ordinal() as int] - 1) as u8),
            old(self)@[card.ordinal() as int] == 0 ==> removed == Err::<(), DeckError>(
                DeckError::NotEnoughCards,
            ) && final(self)@ == old(self)@,
    {
        let ordinal = card.to_ordinal();
        let amount = self.cards[ordinal];
        if amount == 0 {
            Err(DeckError::NotEnoughCards)
        } else {
            self.cards[ordinal] = amount - 1;
            Ok(())
        }
    }
}

} // verus!
