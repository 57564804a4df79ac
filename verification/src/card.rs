//! Cards, their ranks and suits, and their numbering from 0 to 51.
use crate::text::push_str;
use vstd::prelude::*;

pub mod deck;
pub mod hand;
pub mod shoe;

verus! {

/// The four suits, in the order used for numbering cards.
#[derive(Debug, Clone, Copy, PartialEq, Eq, Structural)]
pub enum Suit {
    Clubs,
    Diamonds,
    Hearts,
    Spades,
}

/// The thirteen ranks, lowest first, with the ace high.
#[derive(Debug, Clone, Copy, PartialEq, Eq, Structural)]
pub enum Rank {
    Two,
    Three,
    Four,
    Five,
    Six,
    Seven,
    Eight,
    Nine,
    Ten,
    Jack,
    Queen,
    King,
    Ace,
}

impl Suit {
    /// The name of the suit.
    pub open spec fn name(self) -> Seq<char> {
        match self {
            Suit::Clubs => "Clubs"@,
            Suit::Diamonds => "Diamonds"@,
            Suit::Hearts => "Hearts"@,
            Suit::Spades => "Spades"@,
        }
    }

    /// Suits are displayed as their name, e.g. "Clubs", "Diamonds", "Hearts", "Spades"
    pub fn to_string(&self) -> (text: String)
        ensures
            text@ == self.name(),
    {
        match self {
            Self::Clubs => "Clubs".to_owned(),
            Self::Diamonds => "Diamonds".to_owned(),
            Self::Hearts => "Hearts".to_owned(),
            Self::Spades => "Spades".to_owned(),
        }
    }

    /// Position of the suit within a rank, 0 to 3.
    pub open spec fn index(self) -> nat {
        match self {
            Suit::Clubs => 0,
            Suit::Diamonds => 1,
            Suit::Hearts => 2,
            Suit::Spades => 3,
        }
    }

    /// The suit at position `i`; positions above 3 give spades.
    pub open spec fn at(i: nat) -> Suit {
        if i == 0 {
            Suit::Clubs
        } else if i == 1 {
            Suit::Diamonds
        } else if i == 2 {
            Suit::Hearts
        } else {
            Suit::Spades
        }
    }
}

impl Rank {
    /// The name of the rank with its article.
    pub open spec fn name(self) -> Seq<char> {
        match self {
            Rank::Two => "a Two"@,
            Rank::Three => "a Three"@,
            Rank::Four => "a Four"@,
            Rank::Five => "a Five"@,
            Rank::Six => "a Six"@,
            Rank::Seven => "a Seven"@,
            Rank::Eight => "an Eight"@,
            Rank::Nine => "a Nine"@,
            Rank::Ten => "a Ten"@,
            Rank::Jack => "a Jack"@,
            Rank::Queen => "a Queen"@,
            Rank::King => "a King"@,
            Rank::Ace => "an Ace"@,
        }
    }

    /// Ranks are displayed as "a Rank", e.g. "a Two", "a Seven", "an Eight", "an Ace"
    pub fn to_string(&self) -> (text: String)
        ensures
            text@ == self.name(),
    {
        match self {
            Self::Two => "a Two".to_owned(),
            Self::Three => "a Three".to_owned(),
            Self::Four => "a Four".to_owned(),
            Self::Five => "a Five".to_owned(),
            Self::Six => "a Six".to_owned(),
            Self::Seven => "a Seven".to_owned(),
            Self::Eight => "an Eight".to_owned(),
            Self::Nine => "a Nine".to_owned(),
            Self::Ten => "a Ten".to_owned(),
            Self::Jack => "a Jack".to_owned(),
            Self::Queen => "a Queen".to_owned(),
            Self::King => "a King".to_owned(),
            Self::Ace => "an Ace".to_owned(),
        }
    }

    /// Position of the rank, 0 for the two up to 12 for the ace.
    pub open spec fn index(self) -> nat {
        match self {
            Rank::Two => 0,
            Rank::Three => 1,
            Rank::Four => 2,
            Rank::Five => 3,
            Rank::Six => 4,
            Rank::Seven => 5,
            Rank::Eight => 6,
            Rank::Nine => 7,
            Rank::Ten => 8,
            Rank::Jack => 9,
            Rank::Queen => 10,
            Rank::King => 11,
            Rank::Ace => 12,
        }
    }

    /// The rank at position `i`; positions above 12 give the ace.
    pub open spec fn at(i: nat) -> Rank {
        if i == 0 {
            Rank::Two
        } else if i == 1 {
            Rank::Three
        } else if i == 2 {
            Rank::Four
        } else if i == 3 {
            Rank::Five
        } else if i == 4 {
            Rank::Six
        } else if i == 5 {
            Rank::Seven
        } else if i == 6 {
            Rank::Eight
        } else if i == 7 {
            Rank::Nine
        } else if i == 8 {
            Rank::Ten
        } else if i == 9 {
            Rank::Jack
        } else if i == 10 {
            Rank::Queen
        } else if i == 11 {
            Rank::King
        } else {
            Rank::Ace
        }
    }

    /// What a card of this rank counts for: its pips for two to ten, 10
    /// for a face card, 11 for an ace.
    pub open spec fn spec_worth(&self) -> u8 {
        match self {
            Rank::Ace => 11,
            Rank::Jack | Rank::Queen | Rank::King => 10,
            _ => (self.index() + 2) as u8,
        }
    }

    /// Returns how much a card with this rank is worth in the game.
    /// All face cards are worth 10, and aces are worth 11.
    #[verifier::when_used_as_spec(spec_worth)]
    #[must_use]
    pub fn worth(&self) -> (w: u8)
        ensures
            w == self.spec_worth(),
            2 <= w <= 11,
    {
        match self {
            Self::Two => 2,
            Self::Three => 3,
            Self::Four => 4,
            Self::Five => 5,
            Self::Six => 6,
            Self::Seven => 7,
            Self::Eight => 8,
            Self::Nine => 9,
            Self::Ten | Self::Jack | Self::Queen | Self::King => 10,
            Self::Ace => 11,
        }
    }
}

/// A card is a combination of a rank and a suit.
/// It can be cloned but is not `Copy`: a dealt card is handed on, not
/// duplicated.
#[derive(Debug, Clone, PartialEq, Eq, Structural)]
pub struct Card {
    pub rank: Rank,
    pub suit: Suit,
}

impl Card {
    /// The card in words: its rank, " of ", its suit.
    pub open spec fn name(self) -> Seq<char> {
        self.rank.name() + " of "@ + self.suit.name()
    }

    /// Cards are displayed as "a Rank of Suit", e.g. "a Two of Clubs"
    pub fn to_string(&self) -> (text: String)
        ensures
            text@ == self.name(),
    {
        let mut text = self.rank.to_string();
        push_str(&mut text, " of ");
        let suit = self.suit.to_string();
        push_str(&mut text, suit.as_str());
        text
    }

    /// The number of the card in a deck sorted by rank and then by suit:
    /// the four twos are 0 to 3, the four aces 48 to 51.
    pub open spec fn ordinal(self) -> nat {
        self.rank.index() * 4 + self.suit.index()
    }

    /// The card with the given number.
    pub open spec fn spec_from_ordinal(ordinal: nat) -> Card {
        Card { rank: Rank::at(ordinal / 4), suit: Suit::at(ordinal % 4) }
    }

    /// Returns the card corresponding to the given ordinal value (0-51).
    /// The ordinal value is the index of the card in a deck sorted by rank
    /// and then suit, e.g. twos first, then threes, fours, etc.
    pub fn from_ordinal(ordinal: usize) -> (card: Card)
        requires
            ordinal < 52,
        ensures
            card == Card::spec_from_ordinal(ordinal as nat),
            card.ordinal() == ordinal,
    {
        let rank_index: usize = ordinal / 4;
        let suit_index: usize = ordinal % 4;
        let rank = if rank_index == 0 {
            Rank::Two
        } else if rank_index == 1 {
            Rank::Three
        } else if rank_index == 2 {
            Rank::Four
        } else if rank_index == 3 {
            Rank::Five
        } else if rank_index == 4 {
            Rank::Six
        } else if rank_index == 5 {
            Rank::Seven
        } else if rank_index == 6 {
            Rank::Eight
        } else if rank_index == 7 {
            Rank::Nine
        } else if rank_index == 8 {
            Rank::Ten
        } else if rank_index == 9 {
            Rank::Jack
        } else if rank_index == 10 {
            Rank::Queen
        } else if rank_index == 11 {
            Rank::King
        } else {
            Rank::Ace
        };
        let suit = if suit_index == 0 {
            Suit::Clubs
        } else if suit_index == 1 {
            Suit::Diamonds
        } else if suit_index == 2 {
            Suit::Hearts
        } else {
            Suit::Spades
        };
        Card { rank, suit }
    }

    /// Returns the ordinal value (0-51) of this card.
    pub fn to_ordinal(&self) -> (ordinal: usize)
        ensures
            ordinal == self.ordinal(),
            ordinal < 52,
    {
        let rank_index: usize = match self.rank {
            Rank::Two => 0,
            Rank::Three => 1,
            Rank::Four => 2,
            Rank::Five => 3,
            Rank::Six => 4,
            Rank::Seven => 5,
            Rank::Eight => 6,
            Rank::Nine => 7,
            Rank::Ten => 8,
            Rank::Jack => 9,
            Rank::Queen => 10,
            Rank::King => 11,
            Rank::Ace => 12,
        };
        let suit_index: usize = match self.suit {
            Suit::Clubs => 0,
            Suit::Diamonds => 1,
            Suit::Hearts => 2,
            Suit::Spades => 3,
        };
        rank_index * 4 + suit_index
    }
}

/// Numbering a card and reading the number back gives the same card, and
/// the number is below 52.
pub proof fn lemma_card_ordinal_round_trip(card: Card)
    ensures
        card.ordinal() < 52,
        Card::spec_from_ordinal(card.ordinal()) == card,
{
}

/// Reading a number below 52 as a card and numbering that card gives the
/// same number.
pub proof fn lemma_ordinal_card_round_trip(ordinal: nat)
    requires
        ordinal < 52,
    ensures
        Card::spec_from_ordinal(ordinal).ordinal() == ordinal,
{
}

/// Numbering is a bijection between the cards and the numbers 0 to 51:
/// two cards with one number are one card, and every number below 52 is
/// the number of a card.
pub proof fn lemma_ordinal_bijection()
    ensures
        forall|a: Card, b: Card| #[trigger] a.ordinal() == #[trigger] b.ordinal() ==> a == b,
        forall|n: nat| n < 52 ==> (#[trigger] Card::spec_from_ordinal(n)).ordinal() == n,
        forall|c: Card| #[trigger] c.ordinal() < 52,
{
    assert forall|a: Card, b: Card| #[trigger] a.ordinal() == #[trigger] b.ordinal() implies a
        == b by {
        lemma_card_ordinal_round_trip(a);
        lemma_card_ordinal_round_trip(b);
    }
}

} // verus!
