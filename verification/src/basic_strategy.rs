//! Basic strategy for playing blackjack.
//! This simulates a player who knows the optimal move for every possible hand.
//! This makes a best-effort attempt to consider the rules of the game, but is not perfect.
use crate::card::hand::{ActiveTurn, ActiveTurnView, DealerHand, PlayerHand, PlayerHandView};
use crate::game::{HandAction, Input, Table};
use crate::rules::{DealerSoft17Action, Rules};
use crate::state::{GameState, GameStateView};
use vstd::prelude::*;

verus! {

/// What basic strategy bets on a round.
pub open spec fn flat_bet() -> u32 {
    100
}

/// The bet of a player who follows basic strategy.
#[must_use]
pub fn bet() -> (bet: u32)
    ensures
        bet == flat_bet(),
{
    100
}

/// Whether a hard hand that is no pair is surrendered before the dealer
/// checks for blackjack: 5 to 7 and 12 to 17 against an ace, 14 to 16
/// against a ten.
pub open spec fn early_surrender_hard(total: u8, showing: u8) -> bool {
    ||| 5 <= total <= 7 && showing == 11
    ||| 12 <= total <= 17 && showing == 11
    ||| 14 <= total <= 16 && showing == 10
}

/// Whether a pair is surrendered before the dealer checks for blackjack,
/// by what one card of it counts: sevens and eights against a ten, but
/// not eights in a single deck where a double after a split is allowed;
/// threes, sixes, sevens and eights against an ace; twos against an ace
/// where the dealer hits a soft 17.
pub open spec fn early_surrender_pair(
    half: u8,
    showing: u8,
    decks: u8,
    double_after_split: bool,
    hits_on_soft_17: bool,
) -> bool {
    if half == 8 && showing == 10 && decks == 1 && double_after_split {
        false
    } else {
        ||| 7 <= half <= 8 && showing == 10
        ||| (half == 3 || 6 <= half <= 8) && showing == 11
        ||| half == 2 && showing == 11 && hits_on_soft_17
    }
}

/// Whether a hand is surrendered before the dealer checks for blackjack:
/// a pair by [`early_surrender_pair`], any other hard hand by
/// [`early_surrender_hard`], a soft hand never.
pub open spec fn early_surrender(
    decks: u8,
    rules: Rules,
    hand: PlayerHandView,
    showing: u8,
    hits_on_soft_17: bool,
) -> bool {
    if hand.is_pair() {
        early_surrender_pair(
            hand.value.total / 2,
            showing,
            decks,
            rules.double_after_split,
            hits_on_soft_17,
        )
    } else if hand.value.soft {
        false
    } else {
        early_surrender_hard(hand.value.total, showing)
    }
}

/// Whether a hand is surrendered after the dealer has checked for
/// blackjack, by its total, what the dealer shows, the number of decks,
/// whether the dealer hits a soft 17, and the two cards it is made of.
pub open spec fn late_surrender(
    decks: u8,
    hand: PlayerHandView,
    showing: u8,
    hits_on_soft_17: bool,
) -> bool {
    let total = hand.value.total;
    let nine_six_or_ten_five = hand.composed_of(9, 6) || hand.composed_of(10, 5);
    if total == 14 && showing == 10 {
        decks == 1 && hand.is_pair()
    } else if total == 14 && showing == 11 {
        decks == 1 && hand.is_pair() && hits_on_soft_17
    } else if total == 15 && showing == 10 {
        decks >= 8 || nine_six_or_ten_five
    } else if total == 15 && showing == 11 {
        decks >= 4 || (hits_on_soft_17 && nine_six_or_ten_five)
    } else if total == 16 && showing == 9 {
        decks >= 4
    } else if total == 16 && showing == 10 {
        true
    } else if total == 16 && showing == 11 {
        if decks == 1 && !hits_on_soft_17 {
            hand.composed_of(10, 6)
        } else if decks <= 2 && hits_on_soft_17 {
            hand.composed_of(9, 7) || hand.composed_of(10, 6)
        } else {
            decks >= 2
        }
    } else if total == 17 && showing == 11 {
        hits_on_soft_17
    } else {
        false
    }
}

/// Whether basic strategy surrenders the hand after the dealer has checked
/// for blackjack.
#[must_use]
pub fn surrender_late(table: &Table, player_hand: &PlayerHand, dealer_hand: &DealerHand) -> (surrender:
    bool)
    requires
        dealer_hand@.cards.len() >= 1,
    ensures
        surrender == late_surrender(
            table.shoe@.decks,
            player_hand@,
            dealer_hand@.showing(),
            dealer_hand@.soft_17_action == DealerSoft17Action::Hit,
        ),
{
    let decks = table.shoe.decks();
    match (player_hand.value.total, dealer_hand.showing()) {
        (14, 10) => decks == 1 && player_hand.is_pair(),
        (14, 11) => decks == 1 && player_hand.is_pair() && dealer_hand.hits_on_soft_17(),
        (15, 10) if decks < 8 => player_hand.composed_of(9, 6) || player_hand.composed_of(10, 5),
        (15, 10) => true,
        (15, 11) if decks < 4 => dealer_hand.hits_on_soft_17() && (player_hand.composed_of(9, 6)
            || player_hand.composed_of(10, 5)),
        (15, 11) => true,
        (16, 9) => decks >= 4,
        (16, 10) => true,
        (16, 11) if decks == 1 && !dealer_hand.hits_on_soft_17() => player_hand.composed_of(10, 6),
        (16, 11) if decks <= 2 && dealer_hand.hits_on_soft_17() => player_hand.composed_of(9, 7)
            || player_hand.composed_of(10, 6),
        (16, 11) if decks == 2 && !dealer_hand.hits_on_soft_17() => true,
        (16, 11) if decks > 2 => true,
        (17, 11) => dealer_hand.hits_on_soft_17(),
        _ => false,
    }
}

/// Whether basic strategy surrenders the hand before the dealer checks for
/// blackjack.
#[must_use]
pub fn surrender_early(table: &Table, player_hand: &PlayerHand, dealer_hand: &DealerHand) -> (surrender:
    bool)
    requires
        dealer_hand@.cards.len() >= 1,
    ensures
        surrender == early_surrender(
            table.shoe@.decks,
            table.rules,
            player_hand@,
            dealer_hand@.showing(),
            dealer_hand@.soft_17_action == DealerSoft17Action::Hit,
        ),
{
    match (player_hand.value.soft, player_hand.is_pair()) {
        (false, false) => surrender_early_hard(player_hand, dealer_hand),
        (true, false) => false,  // Soft (non-pair) hands should not be surrendered early
        (_, true) => surrender_early_pair(player_hand, dealer_hand, table),
    }
}

/// Source: <https://wizardofodds.com/games/blackjack/surrender/>
pub fn surrender_early_hard(player_hand: &PlayerHand, dealer_hand: &DealerHand) -> (surrender: bool)
    requires
        dealer_hand@.cards.len() >= 1,
    ensures
        surrender == early_surrender_hard(player_hand.value.total, dealer_hand@.showing()),
{
    match (player_hand.value.total, dealer_hand.showing()) {
        (5..=7, 11) => true,
        (12..=17, 11) => true,
        (14..=16, 10) => true,
        _ => false,
    }
}

/// Source: <https://wizardofodds.com/games/blackjack/surrender/>
pub fn surrender_early_pair(player_hand: &PlayerHand, dealer_hand: &DealerHand, table: &Table) -> (surrender:
    bool)
    requires
        dealer_hand@.cards.len() >= 1,
    ensures
        surrender == early_surrender_pair(
            player_hand.value.total / 2,
            dealer_hand@.showing(),
            table.shoe@.decks,
            table.rules.double_after_split,
            dealer_hand@.soft_17_action == DealerSoft17Action::Hit,
        ),
{
    match (player_hand.value.total / 2, dealer_hand.showing()) {
        (8, 10) if table.shoe.decks() == 1 && table.rules.double_after_split => false,
        (7..=8, 10) | (3 | 6..=8, 11) => true,
        (2, 11) if dealer_hand.hits_on_soft_17() => true,
        _ => false,
    }
}

/// What basic strategy bets on the insurance: nothing.
#[must_use]
pub fn bet_insurance() -> (bet: u32)
    ensures
        bet == 0,
{
    0
}

/// The preferred action which may involve a fallback action
#[derive(Debug, Clone, Copy, PartialEq, Eq, Structural)]
pub enum PreferredAction {
    Stand,
    Hit,
    Split,
    DoubleOrHit,
    DoubleOrStand,
    SurrenderOrHit,
    SurrenderOrStand,
    SurrenderOrSplit,
    SplitIfDoubleAfterSplitAllowedElseHit,
}

impl PreferredAction {
    /// The action that is taken: the first of the two where the table
    /// allows it, else the second.
    pub open spec fn resolved(
        self,
        can_double: bool,
        can_surrender: bool,
        double_after_split: bool,
    ) -> HandAction {
        match self {
            PreferredAction::Stand => HandAction::Stand,
            PreferredAction::Hit => HandAction::Hit,
            PreferredAction::Split => HandAction::Split,
            PreferredAction::DoubleOrHit => if can_double {
                HandAction::Double
            } else {
                HandAction::Hit
            },
            PreferredAction::DoubleOrStand => if can_double {
                HandAction::Double
            } else {
                HandAction::Stand
            },
            PreferredAction::SurrenderOrHit => if can_surrender {
                HandAction::Surrender
            } else {
                HandAction::Hit
            },
            PreferredAction::SurrenderOrStand => if can_surrender {
                HandAction::Surrender
            } else {
                HandAction::Stand
            },
            PreferredAction::SurrenderOrSplit => if can_surrender {
                HandAction::Surrender
            } else {
                HandAction::Split
            },
            PreferredAction::SplitIfDoubleAfterSplitAllowedElseHit => if double_after_split {
                HandAction::Split
            } else {
                HandAction::Hit
            },
        }
    }

    /// Converts the preferred action to an action given the current game situation
    pub fn resolve(self, can_double: bool, can_surrender: bool, double_after_split: bool) -> (action:
        HandAction)
        ensures
            action == self.resolved(can_double, can_surrender, double_after_split),
    {
        match self {
            PreferredAction::Stand => HandAction::Stand,
            PreferredAction::Hit => HandAction::Hit,
            PreferredAction::Split => HandAction::Split,
            PreferredAction::DoubleOrHit => {
                if can_double {
                    HandAction::Double
                } else {
                    HandAction::Hit
                }
            },
            PreferredAction::DoubleOrStand => {
                if can_double {
                    HandAction::Double
                } else {
                    HandAction::Stand
                }
            },
            PreferredAction::SurrenderOrHit => {
                if can_surrender {
                    HandAction::Surrender
                } else {
                    HandAction::Hit
                }
            },
            PreferredAction::SurrenderOrStand => {
                if can_surrender {
                    HandAction::Surrender
                } else {
                    HandAction::Stand
                }
            },
            PreferredAction::SurrenderOrSplit => {
                if can_surrender {
                    HandAction::Surrender
                } else {
                    HandAction::Split
                }
            },
            PreferredAction::SplitIfDoubleAfterSplitAllowedElseHit => {
                if double_after_split {
                    HandAction::Split
                } else {
                    HandAction::Hit
                }
            },
        }
    }
}

/// What is preferred on a hard hand, by its total and what the dealer
/// shows: hit up to 8; double 9 against 3 to 6 (and against 2 with up
/// to two decks), 10 against 2 to 9, 11 against 2 to 10 (and against an
/// ace with up to two decks or where the dealer hits a soft 17), else
/// hit; stand on 12 against 4 to 6 and on 13 to 16 against 2 to 6, else
/// hit, but surrender 15 against a ten (and against an ace where the
/// dealer hits a soft 17) and 16 against 9 and more; stand on 17 and
/// more, but surrender 17 against an ace where the dealer hits a soft 17.
pub open spec fn hard_move(total: u8, showing: u8, decks: u8, hits_on_soft_17: bool) -> PreferredAction {
    if total <= 8 {
        PreferredAction::Hit
    } else if total == 9 {
        if (showing == 2 && decks <= 2) || 3 <= showing <= 6 {
            PreferredAction::DoubleOrHit
        } else {
            PreferredAction::Hit
        }
    } else if total == 10 {
        if showing <= 9 {
            PreferredAction::DoubleOrHit
        } else {
            PreferredAction::Hit
        }
    } else if total == 11 {
        if showing <= 10 || decks <= 2 || hits_on_soft_17 {
            PreferredAction::DoubleOrHit
        } else {
            PreferredAction::Hit
        }
    } else if total <= 16 && showing <= 6 {
        if total == 12 && showing <= 3 {
            PreferredAction::Hit
        } else {
            PreferredAction::Stand
        }
    } else if total <= 14 {
        PreferredAction::Hit
    } else if total == 15 {
        if showing == 10 || (showing == 11 && hits_on_soft_17) {
            PreferredAction::SurrenderOrHit
        } else {
            PreferredAction::Hit
        }
    } else if total == 16 {
        if showing >= 9 {
            PreferredAction::SurrenderOrHit
        } else {
            PreferredAction::Hit
        }
    } else if total == 17 && showing == 11 && hits_on_soft_17 {
        PreferredAction::SurrenderOrStand
    } else {
        PreferredAction::Stand
    }
}

/// What is preferred on a soft hand, by its total and what the dealer
/// shows: double 13 and 14 against 5 and 6, 15 and 16 against 4 to 6,
/// 17 against 3 to 6, else hit them; on 18 double against 3 to 6 (and
/// against 2 where the dealer hits a soft 17), stand against 2, 7 and 8,
/// hit against 9 and more; stand on 19 and more, but double 19 against 6
/// where the dealer hits a soft 17.
pub open spec fn soft_move(total: u8, showing: u8, hits_on_soft_17: bool) -> PreferredAction {
    if total <= 17 {
        if showing <= 6 && showing >= (if total <= 14 {
            5
        } else if total <= 16 {
            4
        } else {
            3int
        }) {
            PreferredAction::DoubleOrHit
        } else {
            PreferredAction::Hit
        }
    } else if total == 18 {
        if 3 <= showing <= 6 || (showing == 2 && hits_on_soft_17) {
            PreferredAction::DoubleOrStand
        } else if showing <= 8 {
            PreferredAction::Stand
        } else {
            PreferredAction::Hit
        }
    } else if total == 19 && showing == 6 && hits_on_soft_17 {
        PreferredAction::DoubleOrStand
    } else {
        PreferredAction::Stand
    }
}

/// What is preferred on a pair that can be split, by half its total and
/// what the dealer shows.
pub open spec fn pair_move(half: u8, showing: u8, hits_on_soft_17: bool) -> PreferredAction {
    if half <= 3 {
        if showing <= 3 {
            PreferredAction::SplitIfDoubleAfterSplitAllowedElseHit
        } else if showing <= 7 {
            PreferredAction::Split
        } else {
            PreferredAction::Hit
        }
    } else if half == 4 {
        if 5 <= showing <= 6 {
            PreferredAction::SplitIfDoubleAfterSplitAllowedElseHit
        } else {
            PreferredAction::Hit
        }
    } else if half == 5 {
        if showing <= 9 {
            PreferredAction::DoubleOrHit
        } else {
            PreferredAction::Hit
        }
    } else if half == 6 {
        if showing == 2 {
            PreferredAction::SplitIfDoubleAfterSplitAllowedElseHit
        } else if showing <= 6 {
            PreferredAction::Split
        } else {
            PreferredAction::Hit
        }
    } else if half == 7 {
        if showing <= 7 {
            PreferredAction::Split
        } else {
            PreferredAction::Hit
        }
    } else if half == 8 {
        if showing == 11 && hits_on_soft_17 {
            PreferredAction::SurrenderOrSplit
        } else {
            PreferredAction::Split
        }
    } else if half == 9 {
        if showing == 7 || showing >= 10 {
            PreferredAction::Stand
        } else {
            PreferredAction::Split
        }
    } else if half == 10 {
        PreferredAction::Stand
    } else {
        PreferredAction::Split
    }
}

/// Whether the tables of basic strategy cover the current hand of the
/// turn: a pair that can be split from 4 to 23, any other soft hand from
/// 13 to 21, any other hard hand from 4 to 21.
pub open spec fn covers(rules: Rules, turn: ActiveTurnView) -> bool {
    let total = turn.current_hand().value.total;
    if rules.split_error(turn) is None {
        4 <= total <= 23
    } else if turn.current_hand().value.soft {
        13 <= total <= 21
    } else {
        4 <= total <= 21
    }
}

/// Whether the tables of basic strategy cover the current hand of the turn.
pub fn is_covered(table: &Table, player_hands: &ActiveTurn) -> (covered: bool)
    ensures
        covered == covers(table.rules, player_hands@),
{
    let hand = player_hands.current_hand();
    let total = hand.value.total;
    if table.check_split_allowed(player_hands).is_ok() {
        4 <= total && total <= 23
    } else if hand.value.soft {
        13 <= total && total <= 21
    } else {
        4 <= total && total <= 21
    }
}

/// What basic strategy prefers on the current hand of the turn.
pub open spec fn preferred_move(
    decks: u8,
    rules: Rules,
    turn: ActiveTurnView,
    showing: u8,
    hits_on_soft_17: bool,
) -> PreferredAction {
    let hand = turn.current_hand();
    if rules.split_error(turn) is None {
        pair_move(hand.value.total / 2, showing, hits_on_soft_17)
    } else if hand.value.soft {
        soft_move(hand.value.total, showing, hits_on_soft_17)
    } else {
        hard_move(hand.value.total, showing, decks, hits_on_soft_17)
    }
}

/// Assuming 4-8 decks
#[must_use]
pub fn play_hand(table: &Table, player_hands: &ActiveTurn, dealer_hand: &DealerHand) -> (action:
    HandAction)
    requires
        dealer_hand@.cards.len() >= 1,
        covers(table.rules, player_hands@),
    ensures
        action == preferred_move(
            table.shoe@.decks,
            table.rules,
            player_hands@,
            dealer_hand@.showing(),
            dealer_hand@.soft_17_action == DealerSoft17Action::Hit,
        ).resolved(
            table.rules.double_error(player_hands@) is None,
            table.rules.surrender_error(player_hands@.current_hand()) is None,
            table.rules.double_after_split,
        ),
{
    let hand = player_hands.current_hand();
    let preferred = match (hand.value.soft, table.check_split_allowed(player_hands).is_ok()) {
        (false, false) => make_move_hard(table, hand, dealer_hand),
        (true, false) => make_move_soft(hand, dealer_hand),
        (_, true) => make_move_splittable(hand, dealer_hand),
    };
    preferred.resolve(
        table.check_double_allowed(player_hands).is_ok(),
        table.check_surrender_allowed(hand).is_ok(),
        table.rules.double_after_split,
    )
}

/// What basic strategy prefers on a hard hand.
pub fn make_move_hard(table: &Table, player_hand: &PlayerHand, dealer_hand: &DealerHand) -> (preferred:
    PreferredAction)
    requires
        dealer_hand@.cards.len() >= 1,
        4 <= player_hand.value.total <= 21,
    ensures
        preferred == hard_move(
            player_hand.value.total,
            dealer_hand@.showing(),
            table.shoe@.decks,
            dealer_hand@.soft_17_action == DealerSoft17Action::Hit,
        ),
{
    let decks = table.shoe.decks();
    match (player_hand.value.total, dealer_hand.showing()) {
        (4..=8, 2..=11) => PreferredAction::Hit,
        (9, 2) => if decks <= 2 {
            PreferredAction::DoubleOrHit
        } else {
            PreferredAction::Hit
        },
        (9, 3..=6) => PreferredAction::DoubleOrHit,
        (9, 7..=11) => PreferredAction::Hit,
        (10, 2..=9) => PreferredAction::DoubleOrHit,
        (10, 10 | 11) => PreferredAction::Hit,
        (11, 2..=10) => PreferredAction::DoubleOrHit,
        (11, 11) => if decks <= 2 || dealer_hand.hits_on_soft_17() {
            PreferredAction::DoubleOrHit
        } else {
            PreferredAction::Hit
        },
        (12, 2..=3) => PreferredAction::Hit,
        (12, 4..=6) => PreferredAction::Stand,
        (12..=14, 7..=11) => PreferredAction::Hit,
        (13..=16, 2..=6) => PreferredAction::Stand,
        (15, 7..=9) => PreferredAction::Hit,
        (15, 10) => PreferredAction::SurrenderOrHit,
        (15, 11) => if dealer_hand.hits_on_soft_17() {
            PreferredAction::SurrenderOrHit
        } else {
            PreferredAction::Hit
        },
        (16, 7 | 8) => PreferredAction::Hit,
        (16, 9..=11) => PreferredAction::SurrenderOrHit,
        (17, 2..=10) => PreferredAction::Stand,
        (17, 11) => if dealer_hand.hits_on_soft_17() {
            PreferredAction::SurrenderOrStand
        } else {
            PreferredAction::Stand
        },
        (18..=21, 2..=11) => PreferredAction::Stand,
        _ => vstd::pervasive::unreached(),
    }
}

/// What basic strategy prefers on a soft hand.
pub fn make_move_soft(player_hand: &PlayerHand, dealer_hand: &DealerHand) -> (preferred:
    PreferredAction)
    requires
        dealer_hand@.cards.len() >= 1,
        13 <= player_hand.value.total <= 21,
    ensures
        preferred == soft_move(
            player_hand.value.total,
            dealer_hand@.showing(),
            dealer_hand@.soft_17_action == DealerSoft17Action::Hit,
        ),
{
    match (player_hand.value.total, dealer_hand.showing()) {
        (13 | 14, 2..=4) => PreferredAction::Hit,
        (13 | 14, 5 | 6) => PreferredAction::DoubleOrHit,
        (15 | 16, 2 | 3) => PreferredAction::Hit,
        (15 | 16, 4..=6) => PreferredAction::DoubleOrHit,
        (17, 2) => PreferredAction::Hit,
        (17, 3..=6) => PreferredAction::DoubleOrHit,
        (13..=17, 7..=11) => PreferredAction::Hit,
        (18, 2) => if dealer_hand.hits_on_soft_17() {
            PreferredAction::DoubleOrStand
        } else {
            PreferredAction::Stand
        },
        (18, 3..=6) => PreferredAction::DoubleOrStand,
        (18, 7 | 8) => PreferredAction::Stand,
        (18, 9..=11) => PreferredAction::Hit,
        (19, 2..=5) => PreferredAction::Stand,
        (19, 6) => if dealer_hand.hits_on_soft_17() {
            PreferredAction::DoubleOrStand
        } else {
            PreferredAction::Stand
        },
        (19, 7..=11) => PreferredAction::Stand,
        (20 | 21, 2..=11) => PreferredAction::Stand,
        _ => vstd::pervasive::unreached(),
    }
}

/// What basic strategy prefers on a pair that can be split.
pub fn make_move_splittable(player_hand: &PlayerHand, dealer_hand: &DealerHand) -> (preferred:
    PreferredAction)
    requires
        dealer_hand@.cards.len() >= 1,
        4 <= player_hand.value.total <= 23,
    ensures
        preferred == pair_move(
            player_hand.value.total / 2,
            dealer_hand@.showing(),
            dealer_hand@.soft_17_action == DealerSoft17Action::Hit,
        ),
{
    match (player_hand.value.total / 2, dealer_hand.showing()) {
        (2 | 3, 2 | 3) => PreferredAction::SplitIfDoubleAfterSplitAllowedElseHit,
        (2 | 3, 4..=7) => PreferredAction::Split,
        (2 | 3, 8..=11) => PreferredAction::Hit,
        (4, 2..=4) => PreferredAction::Hit,
        (4, 5..=6) => PreferredAction::SplitIfDoubleAfterSplitAllowedElseHit,
        (4, 7..=11) => PreferredAction::Hit,
        (5, 2..=9) => PreferredAction::DoubleOrHit,
        (5, 10 | 11) => PreferredAction::Hit,
        (6, 2) => PreferredAction::SplitIfDoubleAfterSplitAllowedElseHit,
        (6, 3..=6) => PreferredAction::Split,
        (6, 7..=11) => PreferredAction::Hit,
        (7, 2..=7) => PreferredAction::Split,
        (7, 8..=11) => PreferredAction::Hit,
        (8, 2..=10) => PreferredAction::Split,
        (8, 11) => if dealer_hand.hits_on_soft_17() {
            PreferredAction::SurrenderOrSplit
        } else {
            PreferredAction::Split
        },
        (9, 2..=6) => PreferredAction::Split,
        (9, 7) => PreferredAction::Stand,
        (9, 8 | 9) => PreferredAction::Split,
        (9, 10 | 11) => PreferredAction::Stand,
        (10, 2..=11) => PreferredAction::Stand,
        (11, 2..=11) => PreferredAction::Split,
        _ => vstd::pervasive::unreached(),
    }
}

/// What a player who follows basic strategy puts in: the flat bet, the
/// choice on the early surrender of the hand, no insurance, the action on
/// the current hand; nothing where the state does not wait for the
/// player.
pub open spec fn advice(decks: u8, rules: Rules, state: GameStateView) -> Option<Input> {
    match state {
        GameStateView::Betting => Some(Input::Bet(flat_bet())),
        GameStateView::OfferEarlySurrender { player_turns, dealer_hand } => Some(
            Input::Choice(
                early_surrender(
                    decks,
                    rules,
                    player_turns[0].hand,
                    dealer_hand.showing(),
                    dealer_hand.soft_17_action == DealerSoft17Action::Hit,
                ),
            ),
        ),
        GameStateView::OfferInsurance { .. } => Some(Input::Bet(0)),
        GameStateView::PlayPlayerTurn { current_turn, dealer_hand, .. } => Some(
            Input::Action(
                preferred_move(
                    decks,
                    rules,
                    current_turn,
                    dealer_hand.showing(),
                    dealer_hand.soft_17_action == DealerSoft17Action::Hit,
                ).resolved(
                    rules.double_error(current_turn) is None,
                    rules.surrender_error(current_turn.current_hand()) is None,
                    rules.double_after_split,
                ),
            ),
        ),
        _ => None,
    }
}

/// The input of a player who follows basic strategy, where the state
/// waits for one. It is of the kind that the state waits for.
pub fn basic_strategy_input(table: &Table, state: &GameState) -> (input: Option<Input>)
    requires
        state@.wf(),
        state@ matches GameStateView::PlayPlayerTurn { current_turn, .. } ==> covers(
            table.rules,
            current_turn,
        ),
    ensures
        input == advice(table.shoe@.decks, table.rules, state@),
        input is Some <==> state@.awaits_input(),
        state@.accepts(input),
{
    match state {
        GameState::Betting => Some(Input::Bet(bet())),
        GameState::OfferEarlySurrender { player_turns, dealer_hand } => Some(
            Input::Choice(surrender_early(table, &player_turns[0].hand, dealer_hand)),
        ),
        GameState::OfferInsurance { .. } => Some(Input::Bet(bet_insurance())),
        GameState::PlayPlayerTurn { current_turn, dealer_hand, .. } => Some(
            Input::Action(play_hand(table, current_turn, dealer_hand)),
        ),
        _ => None,
    }
}

} // verus!
