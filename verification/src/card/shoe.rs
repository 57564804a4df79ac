//! The shoe: several decks from which cards are drawn at random, without
//! replacement, until the shoe is shuffled.
use crate::card::Card;
use rand_distr::weighted::WeightedTreeIndex;
use rand_distr::Distribution;
use vstd::prelude::*;

verus! {

/// The weighted index of `rand_distr` that the shoe draws from: one
/// weight for each of the 52 cards. Nothing of its inside is known here;
/// [`card_weights`] names what it holds.
#[derive(Debug)]
#[verifier::external_body]
pub struct CardWeights {
    tree: WeightedTreeIndex<u16>,
}

/// The weights that a weighted index holds, by position.
pub uninterp spec fn card_weights(weights: CardWeights) -> Seq<u16>;

/// `WeightedTreeIndex::new` on the given weights. It fails, and `None` is
/// returned, only where the weights together exceed `u16`; what it
/// returns holds the weights as they were given.
#[verifier::external_body]
fn weights_of(weights: Vec<u16>) -> (index: Option<CardWeights>)
    ensures
        total_weight(weights@) <= u16::MAX ==> index is Some,
        index matches Some(w) ==> card_weights(w) == weights@,
{
    WeightedTreeIndex::new(weights).ok().map(|tree| CardWeights { tree })
}

/// `Clone::clone` of a `WeightedTreeIndex`: an index that holds the same
/// weights.
#[verifier::external_body]
fn weights_clone(weights: &CardWeights) -> (copy: CardWeights)
    ensures
        card_weights(copy) == card_weights(*weights),
{
    CardWeights { tree: weights.tree.clone() }
}

/// `Distribution::sample` of a `WeightedTreeIndex` with the thread's
/// random generator. It panics where every weight is zero, which the
/// precondition leaves out; the position it returns has a weight above
/// zero. Which one it is depends on chance.
#[verifier::external_body]
fn weights_sample(weights: &CardWeights) -> (index: usize)
    requires
        exists|i: int| 0 <= i < card_weights(*weights).len() && card_weights(*weights)[i] > 0,
    ensures
        index < card_weights(*weights).len(),
        card_weights(*weights)[index as int] > 0,
{
    weights.tree.sample(&mut rand::rng())
}

/// `WeightedTreeIndex::get`: the weight at a position. It panics on a
/// position that the index does not have.
#[verifier::external_body]
fn weights_get(weights: &CardWeights, index: usize) -> (weight: u16)
    requires
        index < card_weights(*weights).len(),
    ensures
        weight == card_weights(*weights)[index as int],
{
    weights.tree.get(index)
}

/// `WeightedTreeIndex::update`: sets the weight at a position, and says
/// whether it did. It panics on a position that the index does not have.
/// Lowering a weight always succeeds; on an error nothing has changed.
#[verifier::external_body]
fn weights_update(weights: &mut CardWeights, index: usize, weight: u16) -> (updated: bool)
    requires
        index < card_weights(*old(weights)).len(),
    ensures
        weight <= card_weights(*old(weights))[index as int] ==> updated,
        updated ==> card_weights(*final(weights)) == card_weights(*old(weights)).update(
            index as int,
            weight,
        ),
        !updated ==> card_weights(*final(weights)) == card_weights(*old(weights)),
{
    weights.tree.update(index, weight).is_ok()
}

/// The weights added up.
pub open spec fn total_weight(weights: Seq<u16>) -> nat
    decreases weights.len(),
{
    if weights.len() == 0 {
        0
    } else {
        total_weight(weights.drop_last()) + weights.last() as nat
    }
}

/// Weights that add up to more than zero hold a weight above zero.
pub proof fn lemma_total_weight_positive(weights: Seq<u16>)
    requires
        total_weight(weights) > 0,
    ensures
        exists|i: int| 0 <= i < weights.len() && weights[i] > 0,
    decreases weights.len(),
{
    if weights.last() == 0 {
        lemma_total_weight_positive(weights.drop_last());
        let i = choose|i: int| 0 <= i < weights.drop_last().len() && weights.drop_last()[i] > 0;
        assert(weights[i] > 0);
    } else {
        assert(weights[weights.len() - 1] > 0);
    }
}

/// Setting one weight changes the total by the difference.
pub proof fn lemma_total_weight_update(weights: Seq<u16>, i: int, weight: u16)
    requires
        0 <= i < weights.len(),
    ensures
        total_weight(weights.update(i, weight)) == total_weight(weights) - weights[i] + weight,
    decreases weights.len(),
{
    if i == weights.len() - 1 {
        assert(weights.update(i, weight).drop_last() =~= weights.drop_last());
    } else {
        assert(weights.update(i, weight).drop_last() =~= weights.drop_last().update(i, weight));
        lemma_total_weight_update(weights.drop_last(), i, weight);
    }
}

/// Equal weights add up to their number times the weight.
pub proof fn lemma_total_weight_equal(n: nat, weight: u16)
    ensures
        total_weight(Seq::new(n, |i: int| weight)) == n * weight,
    decreases n,
{
    if n > 0 {
        let weights = Seq::new(n, |i: int| weight);
        assert(weights.drop_last() =~= Seq::new((n - 1) as nat, |i: int| weight));
        assert(weights.last() == weight);
        lemma_total_weight_equal((n - 1) as nat, weight);
        assert(n * weight == (n - 1) * weight + weight) by (nonlinear_arith);
    } else {
        assert(Seq::new(n, |i: int| weight).len() == 0);
    }
}

/// The share of the shoe that is played before it is shuffled, as a
/// fraction.
#[derive(Debug, Clone, Copy, PartialEq, Eq, Structural)]
pub struct Penetration {
    pub numerator: u16,
    pub denominator: u16,
}

/// What the contracts say of a shoe.
pub struct ShoeView {
    /// The number of decks in the shoe
    pub decks: u8,
    /// The number of cards that have been drawn since the last shuffle
    pub cards_drawn: u16,
    /// The proportion of cards to play before shuffling
    pub max_penetration: Penetration,
    /// How many copies of each card are left, by the card's ordinal
    pub remaining: Seq<u16>,
}

impl ShoeView {
    /// The number of cards of the full shoe.
    pub open spec fn size(self) -> nat {
        52 * self.decks as nat
    }

    /// The shoe has a deck at least, no card is left more often than
    /// there are decks, the cards left and the cards drawn are the full
    /// shoe, and a card is left.
    pub open spec fn wf(self) -> bool {
        &&& self.decks >= 1
        &&& self.remaining.len() == 52
        &&& forall|i: int| 0 <= i < 52 ==> #[trigger] self.remaining[i] <= self.decks
        &&& total_weight(self.remaining) + self.cards_drawn == self.size()
        &&& self.cards_drawn < self.size()
    }

    /// A shoe that holds every card of its decks.
    pub open spec fn full(decks: u8, max_penetration: Penetration) -> ShoeView {
        ShoeView {
            decks,
            cards_drawn: 0,
            max_penetration,
            remaining: Seq::new(52, |i: int| decks as u16),
        }
    }

    /// Whether `card` can be drawn: a copy of it is left.
    pub open spec fn holds(self, card: Card) -> bool {
        self.remaining[card.ordinal() as int] > 0
    }

    /// Whether the next draw takes the last card, so that the shoe is
    /// shuffled at once.
    pub open spec fn on_last_card(self) -> bool {
        self.cards_drawn + 1 == self.size()
    }

    /// The shoe after `card` has been drawn: one copy of it less and one
    /// more card drawn, or the full shoe again where it was the last card.
    pub open spec fn after_draw(self, card: Card) -> ShoeView {
        if self.on_last_card() {
            Self::full(self.decks, self.max_penetration)
        } else {
            ShoeView {
                cards_drawn: (self.cards_drawn + 1) as u16,
                remaining: self.remaining.update(
                    card.ordinal() as int,
                    (self.remaining[card.ordinal() as int] - 1) as u16,
                ),
                ..self
            }
        }
    }

    /// Whether the cards can be drawn one after the other.
    pub open spec fn can_draw(self, cards: Seq<Card>) -> bool
        decreases cards.len(),
    {
        cards.len() == 0 || (self.can_draw(cards.drop_last()) && self.after_draws(
            cards.drop_last(),
        ).holds(cards.last()))
    }

    /// The shoe after the cards have been drawn one after the other.
    pub open spec fn after_draws(self, cards: Seq<Card>) -> ShoeView
        decreases cards.len(),
    {
        if cards.len() == 0 {
            self
        } else {
            self.after_draws(cards.drop_last()).after_draw(cards.last())
        }
    }

    /// Whether the share of the shoe that has been drawn has reached the
    /// penetration.
    pub open spec fn needs_shuffle(self) -> bool {
        self.cards_drawn * self.max_penetration.denominator >= self.max_penetration.numerator
            * self.size()
    }
}

/// A full shoe is well formed.
pub proof fn lemma_full_shoe(decks: u8, max_penetration: Penetration)
    requires
        decks >= 1,
    ensures
        ShoeView::full(decks, max_penetration).wf(),
{
    lemma_total_weight_equal(52, decks as u16);
}

/// Drawing a card that the shoe holds leaves the shoe well formed.
pub proof fn lemma_draw_keeps_shoe(shoe: ShoeView, card: Card)
    requires
        shoe.wf(),
        shoe.holds(card),
    ensures
        shoe.after_draw(card).wf(),
{
    lemma_full_shoe(shoe.decks, shoe.max_penetration);
    let k = card.ordinal() as int;
    lemma_total_weight_update(shoe.remaining, k, (shoe.remaining[k] - 1) as u16);
}

/// A full shoe of `D` decks gives `52 * D` cards before it is shuffled,
/// whichever cards are drawn: while fewer have been drawn, the count of
/// cards drawn is their number, the cards left are the rest, and a card is
/// left to draw; with the draw that makes `52 * D` the shoe is full again.
pub proof fn lemma_shoe_lasts_all_its_cards(
    decks: u8,
    max_penetration: Penetration,
    cards: Seq<Card>,
)
    requires
        decks >= 1,
        cards.len() <= 52 * decks,
        ShoeView::full(decks, max_penetration).can_draw(cards),
    ensures
        ShoeView::full(decks, max_penetration).after_draws(cards).wf(),
        ShoeView::full(decks, max_penetration).after_draws(cards).decks == decks,
        ShoeView::full(decks, max_penetration).after_draws(cards).max_penetration
            == max_penetration,
        cards.len() < 52 * decks ==> {
            let shoe = ShoeView::full(decks, max_penetration).after_draws(cards);
            &&& shoe.cards_drawn == cards.len()
            &&& total_weight(shoe.remaining) == 52 * decks - cards.len()
            &&& exists|card: Card| shoe.holds(card)
        },
        cards.len() == 52 * decks ==> ShoeView::full(decks, max_penetration).after_draws(cards)
            == ShoeView::full(decks, max_penetration),
    decreases cards.len(),
{
    let full = ShoeView::full(decks, max_penetration);
    lemma_full_shoe(decks, max_penetration);
    if cards.len() > 0 {
        lemma_shoe_lasts_all_its_cards(decks, max_penetration, cards.drop_last());
        lemma_draw_keeps_shoe(full.after_draws(cards.drop_last()), cards.last());
    }
    let shoe = full.after_draws(cards);
    if cards.len() == 52 * decks {
        assert(full.after_draws(cards.drop_last()).on_last_card());
    }
    if cards.len() < 52 * decks {
        lemma_total_weight_positive(shoe.remaining);
        let i = choose|i: int| 0 <= i < shoe.remaining.len() && shoe.remaining[i] > 0;
        crate::card::lemma_ordinal_card_round_trip(i as nat);
        assert(shoe.holds(Card::spec_from_ordinal(i as nat)));
    }
}

/// The weights of a full shoe: as many copies of each of the 52 cards as
/// there are decks.
fn full_weights(decks: u8) -> (weights: Vec<u16>)
    ensures
        weights@ == Seq::new(52, |i: int| decks as u16),
{
    let mut weights: Vec<u16> = Vec::with_capacity(52);
    let mut i: usize = 0;
    while i < 52
        invariant
            i <= 52,
            weights@ == Seq::new(i as nat, |k: int| decks as u16),
        decreases 52 - i,
    {
        weights.push(decks as u16);
        i += 1;
        assert(weights@ =~= Seq::new(i as nat, |k: int| decks as u16));
    }
    weights
}

/// A shoe is a container that contains multiple decks of cards.
#[derive(Debug)]
pub struct Shoe {
    /// The number of decks in the shoe
    decks: u8,
    /// The number of cards that have been drawn from the shoe
    cards_drawn: u16,
    /// The proportion of cards to play before shuffling
    max_penetration: Penetration,
    /// Weighted distribution to draw random cards from the shoe without replacement.
    dist: CardWeights,
}

impl View for Shoe {
    type V = ShoeView;

    closed spec fn view(&self) -> ShoeView {
        ShoeView {
            decks: self.decks,
            cards_drawn: self.cards_drawn,
            max_penetration: self.max_penetration,
            remaining: card_weights(self.dist),
        }
    }
}

impl Clone for Shoe {
    /// A shoe with the same cards left and the same count of cards drawn.
    fn clone(&self) -> (shoe: Shoe)
        ensures
            shoe@ == self@,
    {
        Shoe {
            decks: self.decks,
            cards_drawn: self.cards_drawn,
            max_penetration: self.max_penetration,
            dist: weights_clone(&self.dist),
        }
    }
}

impl Shoe {
    /// Create a new shoe with the given number of decks and shuffle threshold.
    /// The shoe is initialized with all cards present.
    #[must_use]
    pub fn new(decks: u8, shuffle_threshold: Penetration) -> (shoe: Shoe)
        requires
            decks >= 1,
        ensures
            shoe@ == ShoeView::full(decks, shuffle_threshold),
            shoe@.wf(),
    {
        proof {
            lemma_full_shoe(decks, shuffle_threshold);
        }
        proof {
            lemma_total_weight_equal(52, decks as u16);
        }
        let dist = match weights_of(full_weights(decks)) {
            Some(weights) => weights,
            None => vstd::pervasive::unreached(),
        };
        Shoe { decks, cards_drawn: 0, max_penetration: shuffle_threshold, dist }
    }

    /// The number of decks in the shoe.
    pub fn decks(&self) -> (decks: u8)
        ensures
            decks == self@.decks,
    {
        self.decks
    }

    /// The number of cards that have been drawn since the last shuffle.
    pub fn cards_drawn(&self) -> (drawn: u16)
        ensures
            drawn == self@.cards_drawn,
    {
        self.cards_drawn
    }

    /// The proportion of cards to play before shuffling.
    pub fn max_penetration(&self) -> (penetration: Penetration)
        ensures
            penetration == self@.max_penetration,
    {
        self.max_penetration
    }

    /// Draws a random card from the shoe.
    /// The card is removed from the shoe, and the distribution is updated to reflect the new weight.
    /// If the last card is drawn, the shoe is shuffled.
    pub fn draw_card(&mut self) -> (card: Card)
        requires
            old(self)@.wf(),
        ensures
            old(self)@.holds(card),
            final(self)@ == old(self)@.after_draw(card),
            final(self)@.wf(),
    {
        proof {
            lemma_total_weight_positive(self@.remaining);
        }
        let ordinal = weights_sample(&self.dist);
        let card = Card::from_ordinal(ordinal);
        proof {
            lemma_draw_keeps_shoe(self@, card);
        }
        self.cards_drawn += 1;
        let new_weight = weights_get(&self.dist, ordinal) - 1;
        // Update the distribution to reflect the new weight of the removed card
        let updated = weights_update(&mut self.dist, ordinal, new_weight);
        assert(updated);
        if self.cards_drawn == self.decks as u16 * 52 {
            // The last card has been drawn
            self.shuffle();
        }
        card
    }

    /// Checks if the shoe needs to be shuffled.
    #[must_use]
    pub fn needs_shuffle(&self) -> (needed: bool)
        ensures
            needed == self@.needs_shuffle(),
    {
        let cards_drawn = self.cards_drawn as u64;
        let denominator = self.max_penetration.denominator as u64;
        let numerator = self.max_penetration.numerator as u64;
        let size = self.decks as u64 * 52;
        assert(cards_drawn * denominator <= 0xffff * 0xffff) by (nonlinear_arith)
            requires
                cards_drawn <= 0xffff,
                denominator <= 0xffff,
        ;
        assert(numerator * size <= 0xffff * 0xffff) by (nonlinear_arith)
            requires
                numerator <= 0xffff,
                size <= 0xffff,
        ;
        cards_drawn * denominator >= numerator * size
    }

    /// Shuffles the shoe.
    /// All cards are returned to the shoe, and the distribution is updated to reflect the new weights.
    pub fn shuffle(&mut self)
        ensures
            final(self)@ == ShoeView::full(old(self)@.decks, old(self)@.max_penetration),
            old(self)@.decks >= 1 ==> final(self)@.wf(),
    {
        proof {
            if self.decks >= 1 {
                lemma_full_shoe(self.decks, self.max_penetration);
            }
        }
        self.cards_drawn = 0;
        proof {
            lemma_total_weight_equal(52, self.decks as u16);
        }
        self.dist = match weights_of(full_weights(self.decks)) {
            Some(weights) => weights,
            None => vstd::pervasive::unreached(),
        };
    }
}

/// Something that deals cards: a shoe, or whatever stands in for one.
pub trait Dispenser {
    /// Whether a card can be dealt.
    spec fn ready(&self) -> bool;

    /// Deals the next card.
    fn deal(&mut self) -> (card: Card)
        requires
            old(self).ready(),
        ensures
            final(self).ready(),
    ;

    /// Whether the cards should be shuffled before the next round.
    fn needs_shuffle(&self) -> (needed: bool);

    /// Shuffles the cards.
    fn shuffle(&mut self)
        requires
            old(self).ready(),
        ensures
            final(self).ready(),
    ;
}

impl Dispenser for Shoe {
    open spec fn ready(&self) -> bool {
        self@.wf()
    }

    fn deal(&mut self) -> (card: Card)
        ensures
            old(self)@.holds(card),
            final(self)@ == old(self)@.after_draw(card),
    {
        self.draw_card()
    }

    fn needs_shuffle(&self) -> (needed: bool)
        ensures
            needed == self@.needs_shuffle(),
    {
        Shoe::needs_shuffle(self)
    }

    fn shuffle(&mut self)
        ensures
            final(self)@ == ShoeView::full(old(self)@.decks, old(self)@.max_penetration),
    {
        Shoe::shuffle(self)
    }
}

} // verus!
