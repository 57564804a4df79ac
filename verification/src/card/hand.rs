//! Hand values, hand status, and the hands of the player and the dealer.
use crate::card::{Card, Rank};
use crate::rules::{BlackjackPayout, DealerSoft17Action};
use crate::text::{decimal, decimal_text, push_str};
use vstd::prelude::*;

verus! {

/// Represents the game value of a hand, e.g. "Soft 20"
#[derive(Debug, Default, Clone, Copy, PartialEq, Eq, Structural)]
pub struct Value {
    /// Whether the hand has an ace that is currently worth 11
    pub soft: bool,
    /// The total value of the hand
    pub total: u8,
}

impl Value {
    /// A soft value counts one ace as 11, so it lies between 11 and 21.
    pub open spec fn wf(self) -> bool {
        self.soft ==> 11 <= self.total <= 21
    }

    /// The value of a single card: an ace is a soft 11, any other card is
    /// hard and counts its worth.
    pub open spec fn of_card(card: Card) -> Value {
        Value { soft: card.rank == Rank::Ace, total: card.rank.spec_worth() }
    }

    /// How many of the two values count an ace as 11.
    pub open spec fn soft_aces(self, rhs: Value) -> int {
        (if self.soft { 1int } else { 0int }) + (if rhs.soft { 1int } else { 0int })
    }

    /// How many aces are revalued from 11 to 1 when the two values are
    /// added: as few as bring the sum to 21 or below, and all of them
    /// where that is out of reach.
    pub open spec fn deflations(self, rhs: Value) -> int {
        let raw = self.total + rhs.total;
        let aces = self.soft_aces(rhs);
        if raw <= 21 {
            0
        } else if raw <= 31 && aces >= 1 {
            1
        } else {
            aces
        }
    }

    /// The sum of two values: the two totals less 10 for each revalued
    /// ace, soft while an ace still counts 11.
    pub open spec fn plus(self, rhs: Value) -> Value {
        Value {
            soft: self.deflations(rhs) < self.soft_aces(rhs),
            total: (self.total + rhs.total - 10 * self.deflations(rhs)) as u8,
        }
    }

    /// The value in words: "Soft" or "Hard", a space, and the total.
    pub open spec fn name(self) -> Seq<char> {
        (if self.soft {
            "Soft "@
        } else {
            "Hard "@
        }) + decimal(self.total as nat)
    }

    /// A hand is displayed as "Soft/Hard total", e.g. "Soft 20"
    pub fn to_string(&self) -> (text: String)
        ensures
            text@ == self.name(),
    {
        let mut text = if self.soft {
            "Soft ".to_owned()
        } else {
            "Hard ".to_owned()
        };
        let total = decimal_text(self.total);
        push_str(&mut text, total.as_str());
        text
    }

    /// Adds two hand values together, taking care to handle soft values and
    /// avoid busting if possible.
    pub fn add_assign(&mut self, rhs: Value)
        requires
            old(self).wf(),
            rhs.wf(),
            old(self).total + rhs.total <= u8::MAX,
        ensures
            *final(self) == old(self).plus(rhs),
            final(self).wf(),
            final(self).total > 21 ==> !final(self).soft && old(self).total + rhs.total - 10
                * old(self).soft_aces(rhs) > 21,
    {
        let mut soft = rhs.soft;
        let mut worth = rhs.total;
        // Prevent busting by converting the soft ace to a hard ace
        if soft && self.total + worth > 21 {
            worth -= 10;  // Convert the ace from 11 to 1
            soft = false;
        }
        // Prevent busting by converting the current hand's soft ace to a hard ace
        if self.soft && self.total + worth > 21 {
            self.total -= 10;  // Convert the ace from 11 to 1
            self.soft = false;
        }
        self.total += worth;  // Add the card's worth to the total
        self.soft = self.soft || soft;  // If either hand has a soft ace, the result is a soft hand
    }
}

impl Card {
    /// Returns the value of this card as if it were alone in a hand.
    /// Aces are soft 11s, while all other cards are hard values.
    pub fn value(&self) -> (value: Value)
        ensures
            value == Value::of_card(*self),
            value.wf(),
    {
        Value { soft: self.rank == Rank::Ace, total: self.rank.worth() }
    }
}

impl From<&Card> for Value {
    /// Converts a card into a hand value.
    fn from(card: &Card) -> (value: Value) {
        Value { soft: card.rank == Rank::Ace, total: card.rank.worth() }
    }
}

impl vstd::std_specs::convert::FromSpecImpl<&Card> for Value {
    open spec fn obeys_from_spec() -> bool {
        true
    }

    open spec fn from_spec(card: &Card) -> Value {
        Value::of_card(*card)
    }
}

/// Adding two values never reports a bust while an ace among them still
/// counts 11: a sum above 21 is hard, and revaluing every soft ace of the
/// two operands would still leave it above 21. The total is the plain sum
/// less 10 for each ace revalued.
pub proof fn lemma_value_sum_avoids_bust(a: Value, b: Value)
    requires
        a.wf(),
        b.wf(),
        a.total + b.total <= u8::MAX,
    ensures
        a.plus(b).wf(),
        a.plus(b).total == a.total + b.total - 10 * a.deflations(b),
        0 <= a.deflations(b) <= a.soft_aces(b),
        a.plus(b).total > 21 ==> !a.plus(b).soft && a.deflations(b) == a.soft_aces(b),
        a.deflations(b) > 0 ==> a.total + b.total - 10 * (a.deflations(b) - 1) > 21,
{
}

/// Represents the status of a hand.
/// A hand may still be in play, or it may be in any of the four terminal states.
#[derive(Debug, Clone, Copy, Default, PartialEq, Eq, Structural)]
pub enum Status {
    #[default]
    InPlay,
    Stood,
    Bust,
    Blackjack,
    Surrendered,
}

impl Status {
    /// Every status but `InPlay` is terminal.
    pub open spec fn terminal(self) -> bool {
        self != Status::InPlay
    }
}

/// The largest bet a hand can carry: with it the best payout of a round,
/// two and a half times the bets and twice the insurance, still fits `u32`.
pub const MAX_STAKE: u32 = 1_227_133_513;

/// The total of the cards with every ace counted as 1.
pub open spec fn hard_total(cards: Seq<Card>) -> nat
    decreases cards.len(),
{
    if cards.len() == 0 {
        0
    } else {
        let last = cards.last();
        hard_total(cards.drop_last()) + if last.rank == Rank::Ace {
            1nat
        } else {
            last.rank.spec_worth() as nat
        }
    }
}

/// Whether one of the cards is an ace.
pub open spec fn has_ace(cards: Seq<Card>) -> bool
    decreases cards.len(),
{
    cards.len() > 0 && (cards.last().rank == Rank::Ace || has_ace(cards.drop_last()))
}

/// The value of a hand of cards: one ace counts 11 where that keeps the
/// total at 21 or below, and the hand is then soft; every other ace
/// counts 1.
pub open spec fn hand_value(cards: Seq<Card>) -> Value {
    let hard = hard_total(cards);
    if has_ace(cards) && hard + 10 <= 21 {
        Value { soft: true, total: (hard + 10) as u8 }
    } else {
        Value { soft: false, total: hard as u8 }
    }
}

/// The value of a single card is the value of the hand that holds it alone.
pub proof fn lemma_hand_value_single(card: Card)
    ensures
        hand_value(seq![card]) == Value::of_card(card),
        1 <= hard_total(seq![card]) <= 10,
{
    let cards = seq![card];
    assert(cards.drop_last() =~= Seq::<Card>::empty());
    assert(hard_total(cards.drop_last()) == 0);
    assert(!has_ace(cards.drop_last()));
}

/// Adding a card's value to the value of a hand, ace by ace as
/// [`Value::plus`] does, gives the value of the longer hand.
pub proof fn lemma_hand_value_push(cards: Seq<Card>, card: Card)
    requires
        hard_total(cards) + 11 <= u8::MAX,
    ensures
        hand_value(cards.push(card)) == hand_value(cards).plus(Value::of_card(card)),
        hard_total(cards.push(card)) <= hard_total(cards) + 10,
        hard_total(cards.push(card)) >= hard_total(cards) + 1,
{
    assert(cards.push(card).drop_last() =~= cards);
    assert(cards.push(card).last() == card);
}

/// A hand of two cards is worth 21 at most, and is worth 21 only as an
/// ace with a ten-valued card.
pub proof fn lemma_two_cards_value(cards: Seq<Card>)
    requires
        cards.len() == 2,
    ensures
        4 <= hand_value(cards).total <= 21,
        hard_total(cards) <= 20,
        cards[0].rank == cards[1].rank ==> hand_value(cards).total != 21,
{
    let first = cards.drop_last();
    assert(first =~= seq![cards[0]]);
    lemma_hand_value_single(cards[0]);
    assert(first.push(cards[1]) =~= cards);
    lemma_hand_value_push(first, cards[1]);
}

/// What the contracts say of a player's hand: its bet, value and status,
/// and its cards in the order dealt.
pub struct PlayerHandView {
    pub bet: u32,
    pub value: Value,
    pub status: Status,
    pub cards: Seq<Card>,
}

impl PlayerHandView {
    /// The hand holds a card, its value is the value of its cards, and its
    /// status fits its total: in play below 21, bust above 21 and only
    /// then, blackjack on 21 with two cards.
    pub open spec fn wf(self) -> bool {
        &&& self.cards.len() >= 1
        &&& self.value == hand_value(self.cards)
        &&& hard_total(self.cards) <= 30
        &&& self.status == Status::InPlay ==> self.value.total <= 20
        &&& self.status == Status::Bust <==> self.value.total >= 22
        &&& self.status == Status::Blackjack ==> self.value.total == 21 && self.cards.len() == 2
    }

    /// Whether the hand can take a card: it is in play.
    pub open spec fn takes_card(self) -> bool {
        self.status == Status::InPlay
    }

    /// Whether the player can stand on the hand: it is in play.
    pub open spec fn can_stand(self) -> bool {
        self.status == Status::InPlay
    }

    /// Whether the hand can be doubled: it is in play, holds two cards,
    /// and twice its bet is a bet still.
    pub open spec fn can_double(self) -> bool {
        self.status == Status::InPlay && self.cards.len() == 2 && 2 * self.bet <= u32::MAX
    }

    /// Whether the hand can be surrendered: it is in play and holds two
    /// cards.
    pub open spec fn can_surrender(self) -> bool {
        self.status == Status::InPlay && self.cards.len() == 2
    }

    /// A hand of one card with the given bet, in play.
    pub open spec fn fresh(card: Card, bet: u32) -> PlayerHandView {
        PlayerHandView {
            bet,
            value: Value::of_card(card),
            status: Status::InPlay,
            cards: seq![card],
        }
    }

    /// The status of a hand that has just taken a card: bust above 21,
    /// blackjack on 21 with two cards, stood on any other 21, else in play.
    pub open spec fn status_after_card(total: u8, size: nat) -> Status {
        if total >= 22 {
            Status::Bust
        } else if total == 21 && size == 2 {
            Status::Blackjack
        } else if total == 21 {
            Status::Stood
        } else {
            Status::InPlay
        }
    }

    /// The hand after it has taken `card`.
    pub open spec fn with_card(self, card: Card) -> PlayerHandView {
        let value = self.value.plus(Value::of_card(card));
        PlayerHandView {
            bet: self.bet,
            value,
            status: Self::status_after_card(value.total, self.cards.len() + 1),
            cards: self.cards.push(card),
        }
    }

    /// The hand after the player has stood on it.
    pub open spec fn stood(self) -> PlayerHandView {
        PlayerHandView { status: Status::Stood, ..self }
    }

    /// The hand after a double down that drew `card`: twice the bet, one
    /// more card, and stood unless that card ended the hand.
    pub open spec fn doubled(self, card: Card) -> PlayerHandView {
        let drawn = PlayerHandView { bet: (2 * self.bet) as u32, ..self }.with_card(card);
        if drawn.status == Status::InPlay {
            drawn.stood()
        } else {
            drawn
        }
    }

    /// A pair is a hand of exactly two cards of equal rank.
    pub open spec fn is_pair(self) -> bool {
        self.cards.len() == 2 && self.cards[0].rank == self.cards[1].rank
    }

    /// Whether the hand is made of two cards of the given worths, in
    /// either order.
    pub open spec fn composed_of(self, worth1: u8, worth2: u8) -> bool {
        let first = self.cards[0].rank.spec_worth();
        let second = self.cards[1].rank.spec_worth();
        self.cards.len() == 2 && ((first == worth1 && second == worth2) || (first == worth2
            && second == worth1))
    }

    /// What stays of a pair after a split: its first card alone.
    pub open spec fn split_kept(self) -> PlayerHandView {
        PlayerHandView {
            value: Value::of_card(self.cards[0]),
            cards: self.cards.take(1),
            ..self
        }
    }

    /// The hand a split makes of the second card of a pair, with the same bet.
    pub open spec fn split_off(self) -> PlayerHandView {
        Self::fresh(self.cards[1], self.bet)
    }

    /// The hand after the player has surrendered it.
    pub open spec fn surrendered(self) -> PlayerHandView {
        PlayerHandView { status: Status::Surrendered, ..self }
    }

    /// What a blackjack returns: the bet and three halves of it, or six
    /// fifths of it, rounded down.
    pub open spec fn blackjack_return(self, payout: BlackjackPayout) -> nat {
        match payout {
            BlackjackPayout::ThreeToTwo => (self.bet + self.bet * 3 / 2) as nat,
            BlackjackPayout::SixToFive => (self.bet + self.bet * 6 / 5) as nat,
        }
    }

    /// What the hand returns to the player against the dealer's finished
    /// hand: half the bet on a surrender; the bet on equal blackjacks; the
    /// blackjack payout on a blackjack of the player alone; nothing
    /// against a dealer's blackjack or on a bust; twice the bet where only
    /// the dealer is bust; else twice the bet for the higher total, the
    /// bet for equal totals, nothing for the lower.
    pub open spec fn winnings(self, dealer: DealerHandView, payout: BlackjackPayout) -> nat {
        if self.status == Status::Surrendered {
            (self.bet / 2) as nat
        } else if self.status == Status::Blackjack && dealer.status == Status::Blackjack {
            self.bet as nat
        } else if self.status == Status::Blackjack {
            self.blackjack_return(payout)
        } else if dealer.status == Status::Blackjack || self.status == Status::Bust {
            0
        } else if dealer.status == Status::Bust {
            (2 * self.bet) as nat
        } else if self.value.total > dealer.value.total {
            (2 * self.bet) as nat
        } else if self.value.total == dealer.value.total {
            self.bet as nat
        } else {
            0
        }
    }
}

/// A hand that has ended stays as it ended: it takes no card and cannot
/// be stood on, doubled or surrendered, and a split of it, where it is a
/// pair, leaves its status as it is. In a turn, no hand but the current
/// one changes.
pub proof fn lemma_terminal_status_stays(hand: PlayerHandView, turn: ActiveTurnView, i: int)
    requires
        hand.status.terminal(),
        turn.current < turn.hands.len(),
        0 <= i < turn.hands.len(),
        i != turn.current,
    ensures
        !hand.takes_card(),
        !hand.can_stand(),
        !hand.can_double(),
        !hand.can_surrender(),
        hand.split_kept().status == hand.status,
        forall|current: PlayerHandView| (#[trigger] turn.with_current(current)).hands[i] == turn.hands[i],
        forall|new_hand: PlayerHandView| (#[trigger] turn.deferred(new_hand)).hands[i] == turn.hands[i],
{
}

/// Represents a hand of cards held by the player.
#[derive(Debug, PartialEq, Eq)]
pub struct PlayerHand {
    /// The player's bet on this hand
    pub bet: u32,
    /// The value of this hand
    pub value: Value,
    /// The status of this hand, e.g. InPlay, Stood, Bust, Blackjack, Surrendered
    pub status: Status,
    /// The cards in this hand (non-empty at all times)
    pub cards: Vec<Card>,
}

impl View for PlayerHand {
    type V = PlayerHandView;

    open spec fn view(&self) -> PlayerHandView {
        PlayerHandView {
            bet: self.bet,
            value: self.value,
            status: self.status,
            cards: self.cards@,
        }
    }
}

impl PlayerHand {
    /// Creates a new player hand with the given card and bet.
    #[must_use]
    pub fn new(card: Card, bet: u32) -> (hand: PlayerHand)
        ensures
            hand@ == PlayerHandView::fresh(card, bet),
            hand@.wf(),
    {
        proof {
            lemma_hand_value_single(card);
            assert(seq![card].drop_last() =~= Seq::<Card>::empty());
        }
        let value = Value::from(&card);
        let mut cards = Vec::new();
        cards.push(card);
        assert(cards@ =~= seq![card]);
        PlayerHand { bet, value, status: Status::InPlay, cards }
    }

    /// Adds a card to the player's hand.
    pub fn add_assign(&mut self, card: Card)
        requires
            old(self)@.wf(),
            old(self)@.takes_card(),
        ensures
            final(self)@ == old(self)@.with_card(card),
            final(self)@.wf(),
    {
        proof {
            lemma_hand_value_push(self.cards@, card);
        }
        self.value.add_assign(Value::from(&card));
        self.cards.push(card);
        let total = self.value.total;
        self.status = if total >= 22 {
            Status::Bust
        } else if total == 21 && self.cards.len() == 2 {
            Status::Blackjack
        } else if total == 21 {
            Status::Stood
        } else {
            Status::InPlay
        };
    }

    /// The player stands on this hand.
    pub fn stand(&mut self)
        requires
            old(self)@.can_stand(),
        ensures
            final(self)@ == old(self)@.stood(),
            old(self)@.wf() ==> final(self)@.wf(),
    {
        self.status = Status::Stood;
    }

    /// The player doubles down on this hand.
    /// The bet is doubled, and the provided card is added to the hand.
    /// If the hand is not bust, the player stands.
    pub fn double(&mut self, card: Card)
        requires
            old(self)@.wf(),
            old(self)@.can_double(),
        ensures
            final(self)@ == old(self)@.doubled(card),
            final(self)@.wf(),
            final(self).status != Status::InPlay,
    {
        self.bet *= 2;
        self.add_assign(card);
        // If the hand is not finished otherwise, the player stands
        if self.status == Status::InPlay {
            self.status = Status::Stood;
        }
    }

    /// The player splits the hand into two hands. This hand must be a pair!
    /// The new hand has the same bet as the hand it is split from.
    #[must_use]
    pub fn split(&mut self) -> (new_hand: PlayerHand)
        requires
            old(self)@.wf(),
            old(self)@.is_pair(),
        ensures
            final(self)@ == old(self)@.split_kept(),
            new_hand@ == old(self)@.split_off(),
            final(self)@.wf(),
            new_hand@.wf(),
    {
        proof {
            lemma_two_cards_value(self.cards@);
            lemma_hand_value_single(self.cards@[0]);
            assert(self.cards@.drop_last() =~= self.cards@.take(1));
            assert(self.cards@.take(1) =~= seq![self.cards@[0]]);
            assert(seq![self.cards@[0]].drop_last() =~= Seq::<Card>::empty());
        }
        let split_card = self.cards.pop().unwrap();  // Remove the second card
        self.value = Value::from(&self.cards[0]);  // The value of this hand is now the first card
        PlayerHand::new(split_card, self.bet)  // Create a new hand with the second card
    }

    /// The player surrenders this hand, which is in play and holds two cards.
    pub fn surrender(&mut self)
        requires
            old(self)@.can_surrender(),
        ensures
            final(self)@ == old(self)@.surrendered(),
            old(self)@.wf() ==> final(self)@.wf(),
    {
        proof {
            lemma_two_cards_value(self.cards@);
        }
        self.status = Status::Surrendered;
    }

    /// Returns the number of cards in this hand.
    #[must_use]
    pub fn size(&self) -> (size: usize)
        ensures
            size == self@.cards.len(),
    {
        self.cards.len()
    }

    /// Returns whether this hand is a pair.
    /// A pair is a hand consisting of only two cards with equal rank.
    #[must_use]
    pub fn is_pair(&self) -> (pair: bool)
        ensures
            pair == self@.is_pair(),
    {
        self.size() == 2 && self.cards[0].rank == self.cards[1].rank
    }

    /// Returns whether this hand is composed of two cards with the given
    /// worths, in either order.
    #[must_use]
    pub fn composed_of(&self, worth1: u8, worth2: u8) -> (composed: bool)
        ensures
            composed == self@.composed_of(worth1, worth2),
    {
        if self.cards.len() != 2 {
            false
        } else {
            let first = self.cards[0].rank.worth();
            let second = self.cards[1].rank.worth();
            (first == worth1 && second == worth2) || (first == worth2 && second == worth1)
        }
    }

    /// Calculates the winnings for this hand based on the dealer's hand.
    /// This method should only be called once the dealer's hand is in a terminal state.
    #[must_use]
    pub fn calculate_winnings(
        &self,
        dealer_hand: &DealerHand,
        blackjack_payout: BlackjackPayout,
    ) -> (winnings: u32)
        requires
            self@.winnings(dealer_hand@, blackjack_payout) <= u32::MAX,
        ensures
            winnings == self@.winnings(dealer_hand@, blackjack_payout),
    {
        if self.status == Status::Surrendered {
            self.payout_surrender()
        } else if self.status == Status::Blackjack && dealer_hand.status == Status::Blackjack {
            self.payout_push()
        } else if self.status == Status::Blackjack {
            self.payout_blackjack(blackjack_payout)
        } else if dealer_hand.status == Status::Blackjack || self.status == Status::Bust {
            self.payout_loss()
        } else if dealer_hand.status == Status::Bust {
            self.payout_win()
        } else if self.value.total > dealer_hand.value.total {
            self.payout_win()
        } else if self.value.total == dealer_hand.value.total {
            self.payout_push()
        } else {
            self.payout_loss()
        }
    }

    /// Calculates the winnings for a blackjack win based on whether the game pays 3:2 or 6:5.
    pub fn payout_blackjack(&self, payout: BlackjackPayout) -> (winnings: u32)
        requires
            self@.blackjack_return(payout) <= u32::MAX,
        ensures
            winnings == self@.blackjack_return(payout),
    {
        let bet = self.bet as u64;
        match payout {
            BlackjackPayout::ThreeToTwo => (bet + bet * 3 / 2) as u32,
            BlackjackPayout::SixToFive => (bet + bet * 6 / 5) as u32,
        }
    }

    /// Calculates the winnings for a normal win, which is double the bet.
    pub fn payout_win(&self) -> (winnings: u32)
        requires
            2 * self.bet <= u32::MAX,
        ensures
            winnings == 2 * self.bet,
    {
        self.bet * 2
    }

    /// Calculates the winnings for a push, which is the same as the bet.
    pub fn payout_push(&self) -> (winnings: u32)
        ensures
            winnings == self.bet,
    {
        self.bet
    }

    /// Calculates the winnings for a surrender, which is half the bet.
    pub fn payout_surrender(&self) -> (winnings: u32)
        ensures
            winnings == self.bet / 2,
    {
        self.bet / 2
    }

    /// Calculates the winnings for a loss, which is 0.
    pub fn payout_loss(&self) -> (winnings: u32)
        ensures
            winnings == 0,
    {
        0
    }
}

/// What the contracts say of the dealer's hand.
pub struct DealerHandView {
    pub value: Value,
    pub status: Status,
    pub cards: Seq<Card>,
    pub soft_17_action: DealerSoft17Action,
}

impl DealerHandView {
    /// The status of a dealer's hand that has just taken a card: in play
    /// on a soft 17 where the dealer hits it; blackjack on a soft 21 of
    /// two cards; stood on any other total from 17 to 21; bust above 21;
    /// in play below 17.
    pub open spec fn status_after_card(
        value: Value,
        size: nat,
        soft_17_action: DealerSoft17Action,
    ) -> Status {
        if value.soft && value.total == 17 && soft_17_action == DealerSoft17Action::Hit {
            Status::InPlay
        } else if value.soft && value.total == 21 && size == 2 {
            Status::Blackjack
        } else if 17 <= value.total <= 21 {
            Status::Stood
        } else if value.total >= 22 {
            Status::Bust
        } else {
            Status::InPlay
        }
    }

    /// The hand holds a card, its value is the value of its cards, and its
    /// status fits its total: in play up to 17, bust above 21 and only
    /// then, blackjack on 21 with two cards.
    pub open spec fn wf(self) -> bool {
        &&& self.cards.len() >= 1
        &&& self.value == hand_value(self.cards)
        &&& hard_total(self.cards) <= 30
        &&& self.status == Status::InPlay ==> self.value.total <= 17
        &&& self.status == Status::Bust <==> self.value.total >= 22
        &&& self.status == Status::Blackjack ==> self.value.total == 21 && self.cards.len() == 2
    }

    /// A hand of one card, in play.
    pub open spec fn fresh(card: Card, soft_17_action: DealerSoft17Action) -> DealerHandView {
        DealerHandView {
            value: Value::of_card(card),
            status: Status::InPlay,
            cards: seq![card],
            soft_17_action,
        }
    }

    /// The hand after it has taken `card`.
    pub open spec fn with_card(self, card: Card) -> DealerHandView {
        let value = self.value.plus(Value::of_card(card));
        DealerHandView {
            value,
            status: Self::status_after_card(value, self.cards.len() + 1, self.soft_17_action),
            cards: self.cards.push(card),
            soft_17_action: self.soft_17_action,
        }
    }

    /// The hand stood by the rules of the round rather than by its total.
    pub open spec fn stood(self) -> DealerHandView {
        DealerHandView { status: Status::Stood, ..self }
    }

    /// The worth of the first card, the only one the player sees.
    pub open spec fn showing(self) -> u8 {
        self.cards[0].rank.spec_worth()
    }
}

/// Represents the dealer's hand.
#[derive(Debug, PartialEq, Eq)]
pub struct DealerHand {
    /// The value of this hand
    pub value: Value,
    /// The status of this hand
    pub status: Status,
    /// The cards in this hand (non-empty at all times)
    pub cards: Vec<Card>,
    /// Whether the dealer stands or hits on soft 17
    pub soft_17_action: DealerSoft17Action,
}

impl View for DealerHand {
    type V = DealerHandView;

    open spec fn view(&self) -> DealerHandView {
        DealerHandView {
            value: self.value,
            status: self.status,
            cards: self.cards@,
            soft_17_action: self.soft_17_action,
        }
    }
}

impl DealerHand {
    /// Creates a new dealer hand with the given card and soft 17 behavior.
    #[must_use]
    pub fn new(card: Card, soft_17_action: DealerSoft17Action) -> (hand: DealerHand)
        ensures
            hand@ == DealerHandView::fresh(card, soft_17_action),
            hand@.wf(),
    {
        proof {
            lemma_hand_value_single(card);
            assert(seq![card].drop_last() =~= Seq::<Card>::empty());
        }
        let value = Value::from(&card);
        let mut cards = Vec::new();
        cards.push(card);
        assert(cards@ =~= seq![card]);
        DealerHand { value, status: Status::InPlay, cards, soft_17_action }
    }

    /// Adds a card to the dealer's hand.
    pub fn add_assign(&mut self, card: Card)
        requires
            old(self)@.wf(),
            old(self)@.status == Status::InPlay,
        ensures
            final(self)@ == old(self)@.with_card(card),
            final(self)@.wf(),
    {
        proof {
            lemma_hand_value_push(self.cards@, card);
        }
        self.value.add_assign(Value::from(&card));
        self.cards.push(card);
        let soft = self.value.soft;
        let total = self.value.total;
        self.status = if soft && total == 17 && self.hits_on_soft_17() {
            Status::InPlay
        } else if soft && total == 21 && self.cards.len() == 2 {
            Status::Blackjack
        } else if 17 <= total && total <= 21 {
            Status::Stood
        } else if total >= 22 {
            Status::Bust
        } else {
            Status::InPlay
        };
    }

    /// Returns the worth of the dealer's up card, which is what the player must base their decisions on.
    #[must_use]
    pub fn showing(&self) -> (worth: u8)
        requires
            self@.cards.len() >= 1,
        ensures
            worth == self@.showing(),
            2 <= worth <= 11,
    {
        self.cards[0].rank.worth()
    }

    /// Returns whether the dealer hits on soft 17.
    #[must_use]
    pub fn hits_on_soft_17(&self) -> (hits: bool)
        ensures
            hits == (self@.soft_17_action == DealerSoft17Action::Hit),
    {
        self.soft_17_action == DealerSoft17Action::Hit
    }
}

/// Represents the player's bet and insurance bet.
#[derive(Debug, Clone, Copy, PartialEq, Eq, Structural)]
pub struct PlayerBet {
    pub bet: u32,
    pub insurance_bet: u32,
}

/// The views of the hands of a vector, in its order.
pub open spec fn hand_views(hands: Seq<PlayerHand>) -> Seq<PlayerHandView> {
    hands.map_values(|hand: PlayerHand| hand@)
}

/// The bets of the hands, added up.
pub open spec fn stake(hands: Seq<PlayerHandView>) -> nat
    decreases hands.len(),
{
    if hands.len() == 0 {
        0
    } else {
        stake(hands.drop_last()) + hands.last().bet as nat
    }
}

/// What the hands return against the dealer's hand, added up.
pub open spec fn hands_winnings(
    hands: Seq<PlayerHandView>,
    dealer: DealerHandView,
    payout: BlackjackPayout,
) -> nat
    decreases hands.len(),
{
    if hands.len() == 0 {
        0
    } else {
        hands_winnings(hands.drop_last(), dealer, payout) + hands.last().winnings(dealer, payout)
    }
}

/// The first position at or after `from` of a hand that is in play, or
/// the number of hands where there is none.
pub open spec fn first_in_play(hands: Seq<PlayerHandView>, from: nat) -> nat
    decreases hands.len() - from,
{
    if from >= hands.len() {
        hands.len()
    } else if hands[from as int].status == Status::InPlay {
        from
    } else {
        first_in_play(hands, from + 1)
    }
}

/// No hand between `from` and the position that [`first_in_play`] gives
/// is in play, and the hand at that position is.
pub proof fn lemma_first_in_play(hands: Seq<PlayerHandView>, from: nat)
    requires
        from <= hands.len(),
    ensures
        from <= first_in_play(hands, from) <= hands.len(),
        forall|i: int|
            from <= i < first_in_play(hands, from) ==> (#[trigger] hands[i]).status
                != Status::InPlay,
        first_in_play(hands, from) < hands.len() ==> hands[first_in_play(hands, from) as int].status
            == Status::InPlay,
    decreases hands.len() - from,
{
    if from < hands.len() && hands[from as int].status != Status::InPlay {
        lemma_first_in_play(hands, from + 1);
    }
}

/// The stake of a row of hands with one more hand is the stake of the row
/// and the bet of that hand; the same holds of what the hands return.
pub proof fn lemma_stake_push(hands: Seq<PlayerHandView>, hand: PlayerHandView)
    ensures
        stake(hands.push(hand)) == stake(hands) + hand.bet,
        forall|dealer: DealerHandView, payout: BlackjackPayout| #[trigger]
            hands_winnings(hands.push(hand), dealer, payout) == hands_winnings(
                hands,
                dealer,
                payout,
            ) + hand.winnings(dealer, payout),
{
    assert(hands.push(hand).drop_last() =~= hands);
}

/// Replacing one hand of a row changes the stake by the difference of the
/// two bets.
pub proof fn lemma_stake_update(hands: Seq<PlayerHandView>, i: int, hand: PlayerHandView)
    requires
        0 <= i < hands.len(),
    ensures
        stake(hands.update(i, hand)) == stake(hands) - hands[i].bet + hand.bet,
        hands[i].bet <= stake(hands),
    decreases hands.len(),
{
    if i == hands.len() - 1 {
        assert(hands.update(i, hand).drop_last() =~= hands.drop_last());
    } else {
        assert(hands.update(i, hand).drop_last() =~= hands.drop_last().update(i, hand));
        lemma_stake_update(hands.drop_last(), i, hand);
    }
}

/// The first hands of a row stake no more than the whole row, and one
/// hand more stakes its bet more.
pub proof fn lemma_stake_prefix(hands: Seq<PlayerHandView>, n: int)
    requires
        0 <= n <= hands.len(),
    ensures
        stake(hands.take(n)) <= stake(hands),
        n < hands.len() ==> stake(hands.take(n + 1)) == stake(hands.take(n)) + hands[n].bet,
    decreases hands.len(),
{
    if n < hands.len() {
        assert(hands.take(n + 1).drop_last() =~= hands.take(n));
        assert(hands.drop_last().take(n) =~= hands.take(n));
        lemma_stake_prefix(hands.drop_last(), n);
    } else {
        assert(hands.take(n) =~= hands);
    }
}

/// What hands return is at most two and a half times their stake; the
/// first hands of a row return no more than the whole row, and one hand
/// more returns what it returns more.
pub proof fn lemma_winnings_prefix(
    hands: Seq<PlayerHandView>,
    n: int,
    dealer: DealerHandView,
    payout: BlackjackPayout,
)
    requires
        0 <= n <= hands.len(),
    ensures
        2 * hands_winnings(hands, dealer, payout) <= 5 * stake(hands),
        hands_winnings(hands.take(n), dealer, payout) <= hands_winnings(hands, dealer, payout),
        n < hands.len() ==> hands_winnings(hands.take(n + 1), dealer, payout) == hands_winnings(
            hands.take(n),
            dealer,
            payout,
        ) + hands[n].winnings(dealer, payout),
        n < hands.len() ==> 2 * hands[n].winnings(dealer, payout) <= 5 * hands[n].bet,
    decreases hands.len(),
{
    if n < hands.len() {
        assert(hands.take(n + 1).drop_last() =~= hands.take(n));
        assert(hands.drop_last().take(n) =~= hands.take(n));
        lemma_winnings_prefix(hands.drop_last(), n, dealer, payout);
    } else {
        assert(hands.take(n) =~= hands);
        if hands.len() > 0 {
            lemma_winnings_prefix(hands.drop_last(), 0, dealer, payout);
        }
    }
}

/// Two rows of hands stake together what they stake apart.
pub proof fn lemma_stake_concat(first: Seq<PlayerHandView>, second: Seq<PlayerHandView>)
    ensures
        stake(first + second) == stake(first) + stake(second),
    decreases second.len(),
{
    if second.len() == 0 {
        assert(first + second =~= first);
    } else {
        assert((first + second).drop_last() =~= first + second.drop_last());
        lemma_stake_concat(first, second.drop_last());
    }
}

/// Adds up the bets of the hands.
fn bets_of(hands: &Vec<PlayerHand>) -> (total: u32)
    requires
        stake(hand_views(hands@)) <= u32::MAX,
    ensures
        total == stake(hand_views(hands@)),
{
    let ghost views = hand_views(hands@);
    let mut total: u32 = 0;
    let mut i: usize = 0;
    proof {
        assert(views.take(0) =~= Seq::<PlayerHandView>::empty());
    }
    while i < hands.len()
        invariant
            views == hand_views(hands@),
            i <= hands.len(),
            total == stake(views.take(i as int)),
            stake(views) <= u32::MAX,
        decreases hands.len() - i,
    {
        proof {
            lemma_stake_prefix(views, i as int);
            lemma_stake_prefix(views, i + 1);
        }
        total += hands[i].bet;
        i += 1;
    }
    proof {
        assert(views.take(i as int) =~= views);
    }
    total
}

/// What the contracts say of a turn that has not been played yet.
pub struct PendingTurnView {
    pub hand: PlayerHandView,
    pub insurance_bet: u32,
}

impl PendingTurnView {
    /// The hand is well formed, its bet is within [`MAX_STAKE`], and the
    /// insurance is at most half the bet.
    pub open spec fn wf(self) -> bool {
        &&& self.hand.wf()
        &&& self.hand.bet <= MAX_STAKE
        &&& 2 * self.insurance_bet <= self.hand.bet
    }

    /// The turn as it is played: its one hand is the current hand.
    pub open spec fn active(self) -> ActiveTurnView {
        ActiveTurnView { hands: seq![self.hand], current: 0, insurance_bet: self.insurance_bet }
    }

    /// The turn as it ends where it is never played.
    pub open spec fn finished(self) -> FinishedTurnView {
        FinishedTurnView { hands: seq![self.hand], insurance_bet: self.insurance_bet }
    }
}

/// A pending turn that is well formed is well formed when it is played,
/// and when it is finished without having been played.
pub proof fn lemma_single_hand_turn(turn: PendingTurnView)
    requires
        turn.wf(),
    ensures
        turn.active().wf(),
        turn.finished().wf(),
        stake(seq![turn.hand]) == turn.hand.bet,
{
    assert(Seq::<PlayerHandView>::empty().push(turn.hand) =~= seq![turn.hand]);
    lemma_stake_push(Seq::<PlayerHandView>::empty(), turn.hand);
}

/// A player turn waiting to be played.
/// The insurance bet is separate from the hand because there is only a single insurance bet
/// regardless of whether the hand is split later.
#[derive(Debug, PartialEq, Eq)]
pub struct PendingTurn {
    /// The player's currently only hand
    pub hand: PlayerHand,
    /// The insurance bet on this hand
    pub insurance_bet: u32,
}

impl View for PendingTurn {
    type V = PendingTurnView;

    open spec fn view(&self) -> PendingTurnView {
        PendingTurnView { hand: self.hand@, insurance_bet: self.insurance_bet }
    }
}

impl From<PlayerHand> for PendingTurn {
    fn from(hand: PlayerHand) -> (turn: PendingTurn) {
        PendingTurn { hand, insurance_bet: 0 }
    }
}

impl vstd::std_specs::convert::FromSpecImpl<PlayerHand> for PendingTurn {
    open spec fn obeys_from_spec() -> bool {
        true
    }

    open spec fn from_spec(hand: PlayerHand) -> PendingTurn {
        PendingTurn { hand, insurance_bet: 0 }
    }
}

/// What the contracts say of a turn in play: every hand of the player in
/// the order in which the hands were made, the position of the hand being
/// played, and the one insurance bet.
pub struct ActiveTurnView {
    pub hands: Seq<PlayerHandView>,
    pub current: nat,
    pub insurance_bet: u32,
}

impl ActiveTurnView {
    /// The current hand exists, every hand is well formed, no hand before
    /// the current one is in play, the bets together are within
    /// [`MAX_STAKE`], and the insurance is at most half of them.
    pub open spec fn wf(self) -> bool {
        &&& self.current < self.hands.len()
        &&& forall|i: int| 0 <= i < self.hands.len() ==> (#[trigger] self.hands[i]).wf()
        &&& forall|i: int|
            0 <= i < self.current ==> (#[trigger] self.hands[i]).status != Status::InPlay
        &&& stake(self.hands) <= MAX_STAKE
        &&& 2 * self.insurance_bet <= stake(self.hands)
    }

    /// The hand being played.
    pub open spec fn current_hand(self) -> PlayerHandView {
        self.hands[self.current as int]
    }

    /// The turn with `hand` in place of the current hand.
    pub open spec fn with_current(self, hand: PlayerHandView) -> ActiveTurnView {
        ActiveTurnView { hands: self.hands.update(self.current as int, hand), ..self }
    }

    /// The turn with `hand` behind its other hands, to be played last.
    pub open spec fn deferred(self, hand: PlayerHandView) -> ActiveTurnView {
        ActiveTurnView { hands: self.hands.push(hand), ..self }
    }

    /// The position of the hand to play next: the current one while it is
    /// in play, else the first one behind it that is; the number of hands
    /// where none is left.
    pub open spec fn next_position(self) -> nat {
        first_in_play(self.hands, self.current)
    }

    /// The turn once every hand has been played.
    pub open spec fn finished(self) -> FinishedTurnView {
        FinishedTurnView { hands: self.hands, insurance_bet: self.insurance_bet }
    }
}

/// All the player's hands in a round of blackjack.
/// This always starts with just one hand, but the player might split it into arbitrarily many.
/// The player plays each hand in turn, and the hands are resolved in the order they were split.
#[derive(Debug, PartialEq, Eq)]
pub struct ActiveTurn {
    /// The hands that have been played, oldest first.
    finished: Vec<PlayerHand>,
    /// The hand the player is currently playing.
    current: PlayerHand,
    /// The hands that splits have made and that wait to be played, oldest first.
    pending: Vec<PlayerHand>,
    /// The insurance bet. At this point we already know whether it will pay out.
    insurance_bet: u32,
}

impl View for ActiveTurn {
    type V = ActiveTurnView;

    closed spec fn view(&self) -> ActiveTurnView {
        ActiveTurnView {
            hands: hand_views(self.finished@).push(self.current@) + hand_views(self.pending@),
            current: self.finished@.len(),
            insurance_bet: self.insurance_bet,
        }
    }
}

/// Starts to play a pending turn: its hand is the current hand and the
/// only one.
impl From<PendingTurn> for ActiveTurn {
    fn from(turn: PendingTurn) -> (active: ActiveTurn)
        ensures
            active@ == turn@.active(),
            turn@.wf() ==> active@.wf(),
    {
        let active = ActiveTurn {
            finished: Vec::new(),
            current: turn.hand,
            pending: Vec::new(),
            insurance_bet: turn.insurance_bet,
        };
        proof {
            assert(active@.hands =~= seq![turn@.hand]);
            assert(Seq::<PlayerHandView>::empty().push(turn@.hand) =~= seq![turn@.hand]);
            lemma_stake_push(Seq::<PlayerHandView>::empty(), turn@.hand);
        }
        active
    }
}

impl vstd::std_specs::convert::FromSpecImpl<PendingTurn> for ActiveTurn {
    open spec fn obeys_from_spec() -> bool {
        false
    }

    open spec fn from_spec(turn: PendingTurn) -> ActiveTurn {
        choose|active: ActiveTurn| active@ == turn@.active()
    }
}

impl ActiveTurn {
    /// Returns a mutable reference to the current hand.
    pub fn current_hand_mut(&mut self) -> (hand: &mut PlayerHand)
        ensures
            hand@ == old(self)@.current_hand(),
            old(self)@.current < old(self)@.hands.len(),
            final(self)@ == old(self)@.with_current(final(hand)@),
    {
        proof {
            let before = hand_views(self.finished@).push(self.current@);
            assert forall|c: PlayerHandView|
                (before + hand_views(self.pending@)).update(self.finished@.len() as int, c)
                    =~= #[trigger] hand_views(self.finished@).push(c) + hand_views(
                    self.pending@,
                ) by {}
        }
        &mut self.current
    }

    /// Returns a reference to the current hand.
    pub fn current_hand(&self) -> (hand: &PlayerHand)
        ensures
            hand@ == self@.current_hand(),
            self@.current < self@.hands.len(),
    {
        &self.current
    }

    /// Returns the total number of hands belonging to the player, or 255
    /// where there are more.
    pub fn hands(&self) -> (count: u8)
        ensures
            count == if self@.hands.len() <= 255 {
                self@.hands.len()
            } else {
                255
            },
    {
        let finished: usize = self.finished.len();
        let pending: usize = self.pending.len();
        if finished >= 255 || pending >= 255 || finished + pending >= 255 {
            255
        } else {
            (finished + pending + 1) as u8
        }
    }

    /// Returns whether the player has more hands than `limit`.
    pub fn has_more_hands_than(&self, limit: u8) -> (more: bool)
        ensures
            more == (self@.hands.len() > limit),
    {
        let finished: usize = self.finished.len();
        let pending: usize = self.pending.len();
        let limit: usize = limit as usize;
        finished >= limit || pending >= limit || finished + pending >= limit
    }

    /// The bets of all hands of the turn, together.
    pub fn stake(&self) -> (total: u32)
        requires
            stake(self@.hands) <= u32::MAX,
        ensures
            total == stake(self@.hands),
    {
        proof {
            let played = hand_views(self.finished@);
            let waiting = hand_views(self.pending@);
            lemma_stake_push(played, self.current@);
            lemma_stake_concat(played.push(self.current@), waiting);
        }
        bets_of(&self.finished) + self.current.bet + bets_of(&self.pending)
    }

    /// Adds a new (split) hand to the player's turn.
    /// The player may not play this hand immediately, so it is deferred until later.
    pub fn defer(&mut self, hand: PlayerHand)
        ensures
            final(self)@ == old(self)@.deferred(hand@),
            old(self)@.wf() && hand@.wf() && stake(old(self)@.hands) + hand.bet <= MAX_STAKE
                ==> final(self)@.wf(),
    {
        proof {
            lemma_stake_push(self@.hands, hand@);
            assert(hand_views(self.pending@.push(hand)) =~= hand_views(self.pending@).push(hand@));
            assert(self@.hands.push(hand@) =~= hand_views(self.finished@).push(self.current@)
                + hand_views(self.pending@).push(hand@));
        }
        self.pending.push(hand);
    }

    /// Continue playing on the next hand which is still in-play.
    /// If the current hand is still in-play, then nothing happens,
    /// otherwise the hands that wait are taken up in the order in which
    /// they were split until one is found that is still in-play.
    /// This ensures that finished hands are not played again, and we eventually
    /// play all hands to completion in the order they were split.
    /// If there are no more hands to play, the turn is returned as finished.
    pub fn continue_playing(self) -> (next: Result<ActiveTurn, FinishedTurn>)
        ensures
            match next {
                Ok(turn) => self@.next_position() < self@.hands.len() && turn@ == (ActiveTurnView {
                    current: self@.next_position(),
                    ..self@
                }) && turn@.current_hand().status == Status::InPlay,
                Err(finished) => self@.next_position() == self@.hands.len() && finished@
                    == self@.finished(),
            },
            self@.wf() ==> match next {
                Ok(turn) => turn@.wf(),
                Err(finished) => finished@.wf(),
            },
    {
        let ghost all = self@.hands;
        let ghost start = self@.current;
        let ActiveTurn { mut finished, mut current, mut pending, insurance_bet } = self;
        proof {
            lemma_first_in_play(all, start);
        }
        loop
            invariant
                all == self@.hands,
                start == self@.current,
                insurance_bet == self@.insurance_bet,
                all == hand_views(finished@).push(current@) + hand_views(pending@),
                start <= finished@.len(),
                first_in_play(all, start) == first_in_play(all, finished@.len() as nat),
            decreases pending@.len(),
        {
            if current.status == Status::InPlay {
                let turn = ActiveTurn { finished, current, pending, insurance_bet };
                proof {
                    assert(all[finished@.len() as int] == current@);
                    lemma_first_in_play(all, start);
                }
                return Ok(turn);
            }
            proof {
                assert(all[finished@.len() as int] == current@);
            }
            if pending.len() == 0 {
                let ghost played = hand_views(finished@).push(current@);
                proof {
                    let n = finished@.len() as nat;
                    assert(all.len() == n + 1);
                    assert(first_in_play(all, n) == first_in_play(all, n + 1));
                    assert(first_in_play(all, n + 1) == all.len());
                }
                finished.push(current);
                proof {
                    assert(hand_views(finished@) =~= played);
                    assert(all =~= played);
                    lemma_first_in_play(all, start);
                }
                let done = FinishedTurn { hands: finished, insurance_bet };
                return Err(done);
            }
            let ghost waiting = pending@;
            let ghost played = finished@;
            let next_hand = pending.remove(0);
            finished.push(current);
            current = next_hand;
            proof {
                assert(hand_views(finished@).push(current@) + hand_views(pending@) =~= hand_views(
                    played,
                ).push(all[played.len() as int]) + hand_views(waiting));
            }
        }
    }
}

/// What the contracts say of a turn that has been played to the end.
pub struct FinishedTurnView {
    pub hands: Seq<PlayerHandView>,
    pub insurance_bet: u32,
}

impl FinishedTurnView {
    /// Every hand is well formed, the bets together are within
    /// [`MAX_STAKE`], and the insurance is at most half of them.
    pub open spec fn wf(self) -> bool {
        &&& self.hands.len() >= 1
        &&& forall|i: int| 0 <= i < self.hands.len() ==> (#[trigger] self.hands[i]).wf()
        &&& stake(self.hands) <= MAX_STAKE
        &&& 2 * self.insurance_bet <= stake(self.hands)
    }

    /// Everything the player has put on the table in this turn: the bets
    /// of the hands and the insurance.
    pub open spec fn total_bet(self) -> nat {
        stake(self.hands) + self.insurance_bet as nat
    }

    /// What the insurance returns: twice the insurance bet against a
    /// dealer's blackjack, and nothing otherwise.
    pub open spec fn insurance_return(self, dealer: DealerHandView) -> nat {
        if dealer.status == Status::Blackjack {
            (2 * self.insurance_bet) as nat
        } else {
            0
        }
    }

    /// What the turn returns to the player: what its hands return and,
    /// once for the turn, what the insurance returns.
    pub open spec fn winnings(self, dealer: DealerHandView, payout: BlackjackPayout) -> nat {
        self.insurance_return(dealer) + hands_winnings(self.hands, dealer, payout)
    }
}

/// A player turn which has been played to completion.
#[derive(Debug, PartialEq, Eq)]
pub struct FinishedTurn {
    /// The finished hands.
    pub hands: Vec<PlayerHand>,
    /// The insurance bet.
    pub insurance_bet: u32,
}

impl View for FinishedTurn {
    type V = FinishedTurnView;

    open spec fn view(&self) -> FinishedTurnView {
        FinishedTurnView { hands: hand_views(self.hands@), insurance_bet: self.insurance_bet }
    }
}

/// A turn can go straight from pending to finished if it never enters play
/// This can happen in the case of Blackjack, surrender, ...
impl From<PendingTurn> for FinishedTurn {
    fn from(turn: PendingTurn) -> (finished: FinishedTurn)
        ensures
            finished@ == turn@.finished(),
            turn@.wf() ==> finished@.wf(),
    {
        let ghost hand = turn@.hand;
        let mut hands = Vec::new();
        hands.push(turn.hand);
        proof {
            assert(hand_views(hands@) =~= seq![hand]);
            assert(Seq::<PlayerHandView>::empty().push(hand) =~= seq![hand]);
            lemma_stake_push(Seq::<PlayerHandView>::empty(), hand);
        }
        FinishedTurn { hands, insurance_bet: turn.insurance_bet }
    }
}

impl vstd::std_specs::convert::FromSpecImpl<PendingTurn> for FinishedTurn {
    open spec fn obeys_from_spec() -> bool {
        false
    }

    open spec fn from_spec(turn: PendingTurn) -> FinishedTurn {
        choose|finished: FinishedTurn| finished@ == turn@.finished()
    }
}

impl FinishedTurn {
    /// The bets of all hands of the turn and its insurance bet, together.
    pub fn total_bet(&self) -> (total: u32)
        requires
            self@.total_bet() <= u32::MAX,
        ensures
            total == self@.total_bet(),
    {
        bets_of(&self.hands) + self.insurance_bet
    }

    /// What the turn returns to the player against the dealer's hand.
    pub fn calculate_winnings(
        &self,
        dealer_hand: &DealerHand,
        blackjack_payout: BlackjackPayout,
    ) -> (winnings: u32)
        requires
            self@.winnings(dealer_hand@, blackjack_payout) <= u32::MAX,
        ensures
            winnings == self@.winnings(dealer_hand@, blackjack_payout),
    {
        let ghost views = self@.hands;
        let insurance_winnings = if dealer_hand.status == Status::Blackjack {
            self.insurance_bet * 2
        } else {
            0
        };
        let mut total: u32 = 0;
        let mut i: usize = 0;
        proof {
            assert(views.take(0) =~= Seq::<PlayerHandView>::empty());
        }
        while i < self.hands.len()
            invariant
                views == hand_views(self.hands@),
                i <= self.hands.len(),
                total == hands_winnings(views.take(i as int), dealer_hand@, blackjack_payout),
                hands_winnings(views, dealer_hand@, blackjack_payout) <= u32::MAX,
            decreases self.hands.len() - i,
        {
            proof {
                lemma_winnings_prefix(views, i as int, dealer_hand@, blackjack_payout);
                lemma_winnings_prefix(views, i + 1, dealer_hand@, blackjack_payout);
            }
            total += self.hands[i].calculate_winnings(dealer_hand, blackjack_payout);
            i += 1;
        }
        proof {
            assert(views.take(i as int) =~= views);
        }
        insurance_winnings + total
    }
}

} // verus!
