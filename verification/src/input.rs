//! What the player can put in while a state waits, and what the keys that
//! the player presses make of it.
use crate::card::hand::ActiveTurnView;
use crate::game::{HandAction, Input, Table};
use crate::rules::Rules;
use crate::state::{GameState, GameStateView};
use vstd::prelude::*;
use vstd::string::StrSliceExecFns;

verus! {

/// `String::push` of std: appends a character to `text`.
#[verifier::external_body]
fn push_char(text: &mut String, c: char)
    ensures
        final(text)@ == old(text)@.push(c),
{
    text.push(c)
}

/// `String::pop` of std: takes the last character from `text`, if it has
/// one.
#[verifier::external_body]
fn pop_char(text: &mut String)
    ensures
        final(text)@ == if old(text)@.len() > 0 {
            old(text)@.drop_last()
        } else {
            old(text)@
        },
{
    text.pop();
}

/// What a decimal digit counts.
pub open spec fn digit_value(c: char) -> Option<nat> {
    if '0' <= c <= '9' {
        Some((c as nat - '0' as nat) as nat)
    } else {
        None
    }
}

/// The number that decimal digits write; nothing where there is no digit
/// or another character among them.
pub open spec fn number(digits: Seq<char>) -> Option<nat>
    decreases digits.len(),
{
    if digits.len() == 0 {
        None
    } else if digits.len() == 1 {
        digit_value(digits[0])
    } else {
        match (number(digits.drop_last()), digit_value(digits.last())) {
            (Some(n), Some(d)) => Some(10 * n + d),
            _ => None,
        }
    }
}

/// The bet that a text writes: decimal digits, after a plus sign or
/// without one, of a number that `u32` holds.
pub open spec fn written_bet(text: Seq<char>) -> Option<u32> {
    let digits = if text.len() > 0 && text[0] == '+' {
        text.skip(1)
    } else {
        text
    };
    match number(digits) {
        Some(n) => if n <= u32::MAX {
            Some(n as u32)
        } else {
            None
        },
        None => None,
    }
}

/// Digits that write no number up to some place write none as a whole.
proof fn lemma_number_prefix(digits: Seq<char>, n: int)
    requires
        1 <= n <= digits.len(),
        number(digits.take(n)) is None,
    ensures
        number(digits) is None,
    decreases digits.len() - n,
{
    if n < digits.len() {
        assert(digits.take(n + 1).drop_last() =~= digits.take(n));
        lemma_number_prefix(digits, n + 1);
    } else {
        assert(digits.take(n) =~= digits);
    }
}

/// Reads the bet that a text writes.
pub fn parse_bet(text: &str) -> (bet: Option<u32>)
    ensures
        bet == written_bet(text@),
{
    let len = text.unicode_len();
    let start: usize = if len > 0 && text.get_char(0) == '+' {
        1
    } else {
        0
    };
    let ghost digits = text@.skip(start as int);
    proof {
        if start == 0 {
            assert(digits =~= text@);
        }
    }
    if start == len {
        return None;
    }
    let mut value: u32 = 0;
    let mut overflow = false;
    let mut i: usize = start;
    while i < len
        invariant
            start <= i <= len,
            start < len,
            len == text@.len(),
            digits == text@.skip(start as int),
            digits == if text@.len() > 0 && text@[0] == '+' {
                text@.skip(1)
            } else {
                text@
            },
            i > start ==> number(digits.take(i - start)) is Some,
            i > start && !overflow ==> number(digits.take(i - start)) == Some(value as nat),
            i > start && overflow ==> number(digits.take(i - start))->0 > u32::MAX,
            i == start ==> value == 0 && !overflow,
        decreases len - i,
    {
        let c = text.get_char(i);
        let ghost k = i - start;
        proof {
            assert(digits[k] == c);
            assert(digits.take(k + 1).drop_last() =~= digits.take(k));
            assert(digits.take(k + 1).last() == c);
        }
        if c < '0' || c > '9' {
            proof {
                assert(digit_value(c) is None);
                assert(number(digits.take(k + 1)) is None);
                lemma_number_prefix(digits, k + 1);
            }
            return None;
        }
        assert(digit_value(c) == Some((c as u32 - '0' as u32) as nat));
        let digit: u32 = (c as u32) - ('0' as u32);
        if !overflow {
            if value > (u32::MAX - digit) / 10 {
                overflow = true;
            } else {
                value = value * 10 + digit;
            }
        }
        i += 1;
    }
    proof {
        assert(digits.take(len - start) =~= digits);
    }
    if overflow {
        None
    } else {
        Some(value)
    }
}

/// What the round makes of a key that the player presses.
#[derive(Debug, Clone, Copy, PartialEq, Eq, Structural)]
pub enum Key {
    /// A key that writes a character
    Char(char),
    /// The key that enters what has been written
    Enter,
    /// The key that takes the last character back
    Backspace,
    /// Any other key
    Other,
}

/// What the player is asked for, with what has been typed so far.
#[derive(Debug, PartialEq, Eq)]
pub enum InputField {
    PlaceBet(String),
    PlaceInsuranceBet(String),
    ChooseSurrender,
    PlayHand(Vec<HandAction>),
}

/// What the contracts say of an input field.
pub enum InputFieldView {
    PlaceBet(Seq<char>),
    PlaceInsuranceBet(Seq<char>),
    ChooseSurrender,
    PlayHand(Seq<HandAction>),
}

impl View for InputField {
    type V = InputFieldView;

    open spec fn view(&self) -> InputFieldView {
        match self {
            InputField::PlaceBet(text) => InputFieldView::PlaceBet(text@),
            InputField::PlaceInsuranceBet(text) => InputFieldView::PlaceInsuranceBet(text@),
            InputField::ChooseSurrender => InputFieldView::ChooseSurrender,
            InputField::PlayHand(actions) => InputFieldView::PlayHand(actions@),
        }
    }
}

/// One action, or none.
pub open spec fn action_if(allowed: bool, action: HandAction) -> Seq<HandAction> {
    if allowed {
        seq![action]
    } else {
        Seq::empty()
    }
}

/// The actions that the table allows on the current hand of the turn:
/// hit and stand, and then double, split and surrender where the rules
/// have nothing against them.
pub open spec fn allowed_actions(rules: Rules, turn: ActiveTurnView) -> Seq<HandAction> {
    seq![HandAction::Hit, HandAction::Stand] + action_if(
        rules.double_error(turn) is None,
        HandAction::Double,
    ) + action_if(rules.split_error(turn) is None, HandAction::Split) + action_if(
        rules.surrender_error(turn.current_hand()) is None,
        HandAction::Surrender,
    )
}

impl InputFieldView {
    /// The field for a state: an empty bet while betting and for the
    /// insurance, the choice on the early surrender, the allowed actions
    /// for a hand; none for a state that does not wait for the player.
    pub open spec fn of_state(rules: Rules, state: GameStateView) -> Option<InputFieldView> {
        match state {
            GameStateView::Betting => Some(InputFieldView::PlaceBet(Seq::empty())),
            GameStateView::OfferInsurance { .. } => Some(
                InputFieldView::PlaceInsuranceBet(Seq::empty()),
            ),
            GameStateView::OfferEarlySurrender { .. } => Some(InputFieldView::ChooseSurrender),
            GameStateView::PlayPlayerTurn { current_turn, .. } => Some(
                InputFieldView::PlayHand(allowed_actions(rules, current_turn)),
            ),
            _ => None,
        }
    }
}

/// What a key makes of a bet that is being typed: the enter key gives
/// the bet where the text writes one; any other key, and the enter key
/// on any other text, gives nothing.
pub open spec fn bet_entered(key: Key, text: Seq<char>) -> Option<Input> {
    match (key, written_bet(text)) {
        (Key::Enter, Some(bet)) => Some(Input::Bet(bet)),
        _ => None,
    }
}

/// The text of a bet after a key: a character more, the last character
/// less, or the same text.
pub open spec fn bet_typed(key: Key, text: Seq<char>) -> Seq<char> {
    match key {
        Key::Char(c) => text.push(c),
        Key::Backspace => if text.len() > 0 {
            text.drop_last()
        } else {
            text
        },
        _ => text,
    }
}

/// What a key chooses on a surrender: "y" is yes and "n" is no, in
/// either case of the letter.
pub open spec fn choice_of(key: Key) -> Option<Input> {
    match key {
        Key::Char(c) => if c == 'y' || c == 'Y' {
            Some(Input::Choice(true))
        } else if c == 'n' || c == 'N' {
            Some(Input::Choice(false))
        } else {
            None
        },
        _ => None,
    }
}

/// The action that a key stands for: "h" hit, "s" stand, "d" double, "p"
/// split, "r" surrender, in either case of the letter.
pub open spec fn action_of(key: Key) -> Option<Input> {
    match key {
        Key::Char(c) => if c == 'h' || c == 'H' {
            Some(Input::Action(HandAction::Hit))
        } else if c == 's' || c == 'S' {
            Some(Input::Action(HandAction::Stand))
        } else if c == 'd' || c == 'D' {
            Some(Input::Action(HandAction::Double))
        } else if c == 'p' || c == 'P' {
            Some(Input::Action(HandAction::Split))
        } else if c == 'r' || c == 'R' {
            Some(Input::Action(HandAction::Surrender))
        } else {
            None
        },
        _ => None,
    }
}

impl InputField {
    /// The field for the state of a game, where the state waits for the
    /// player.
    pub fn from_game(state: &GameState, table: &Table) -> (field: Option<InputField>)
        ensures
            match field {
                Some(field) => InputFieldView::of_state(table.rules, state@) == Some(field@),
                None => InputFieldView::of_state(table.rules, state@) is None,
            },
            field is Some <==> state@.awaits_input(),
    {
        match state {
            GameState::Betting => Some(InputField::PlaceBet(String::new())),
            GameState::OfferInsurance { .. } => Some(InputField::PlaceInsuranceBet(String::new())),
            GameState::OfferEarlySurrender { .. } => Some(InputField::ChooseSurrender),
            GameState::PlayPlayerTurn { current_turn, .. } => {
                let mut allowed_actions = Vec::with_capacity(5);
                allowed_actions.push(HandAction::Hit);
                allowed_actions.push(HandAction::Stand);
                if table.check_double_allowed(current_turn).is_ok() {
                    allowed_actions.push(HandAction::Double);
                }
                if table.check_split_allowed(current_turn).is_ok() {
                    allowed_actions.push(HandAction::Split);
                }
                if table.check_surrender_allowed(current_turn.current_hand()).is_ok() {
                    allowed_actions.push(HandAction::Surrender);
                }
                assert(allowed_actions@ =~= crate::input::allowed_actions(table.rules, current_turn@));
                Some(InputField::PlayHand(allowed_actions))
            },
            _ => None,
        }
    }

    /// Takes a key: a bet is typed and entered, a choice or an action is
    /// made with one key.
    pub fn consider(&mut self, key: Key) -> (input: Option<Input>)
        ensures
            match old(self)@ {
                InputFieldView::PlaceBet(text) => input == bet_entered(key, text) && final(self)@
                    == InputFieldView::PlaceBet(
                    if input is Some {
                        text
                    } else {
                        bet_typed(key, text)
                    },
                ),
                InputFieldView::PlaceInsuranceBet(text) => input == bet_entered(key, text)
                    && final(self)@ == InputFieldView::PlaceInsuranceBet(
                    if input is Some {
                        text
                    } else {
                        bet_typed(key, text)
                    },
                ),
                InputFieldView::ChooseSurrender => input == choice_of(key) && final(self)@ == old(
                    self,
                )@,
                InputFieldView::PlayHand(_) => input == action_of(key) && final(self)@ == old(
                    self,
                )@,
            },
    {
        match self {
            InputField::PlaceBet(s) => parse_bet_from_string(key, s),
            InputField::PlaceInsuranceBet(s) => parse_bet_from_string(key, s),
            InputField::ChooseSurrender => select_choice(key),
            InputField::PlayHand(_) => select_action(key),
        }
    }
}

/// Takes a key for a bet that is being typed.
pub fn parse_bet_from_string(key: Key, field: &mut String) -> (input: Option<Input>)
    ensures
        input == bet_entered(key, old(field)@),
        final(field)@ == if input is Some {
            old(field)@
        } else {
            bet_typed(key, old(field)@)
        },
{
    if key == Key::Enter {
        if let Some(bet) = parse_bet(field.as_str()) {
            return Some(Input::Bet(bet));
        }
    }
    match key {
        Key::Char(c) => push_char(field, c),
        Key::Backspace => {
            pop_char(field);
        },
        _ => {},
    }
    None
}

/// Takes a key for the choice on a surrender.
pub fn select_choice(key: Key) -> (input: Option<Input>)
    ensures
        input == choice_of(key),
{
    match key {
        Key::Char('y' | 'Y') => Some(Input::Choice(true)),
        Key::Char('n' | 'N') => Some(Input::Choice(false)),
        _ => None,
    }
}

/// Takes a key for the action on a hand.
pub fn select_action(key: Key) -> (input: Option<Input>)
    ensures
        input == action_of(key),
{
    match key {
        Key::Char('h' | 'H') => Some(Input::Action(HandAction::Hit)),
        Key::Char('s' | 'S') => Some(Input::Action(HandAction::Stand)),
        Key::Char('d' | 'D') => Some(Input::Action(HandAction::Double)),
        Key::Char('p' | 'P') => Some(Input::Action(HandAction::Split)),
        Key::Char('r' | 'R') => Some(Input::Action(HandAction::Surrender)),
        _ => None,
    }
}

} // verus!
