//! The calculator's state, the transition that each key press makes, and
//! the executable machine that follows those transitions.

use vstd::prelude::*;

use crate::keys::{digit_char, is_digit_char, symbol_of, Message, Operator};
use crate::laws::lemma_step_preserves_wf;

verus! {

/// The calculator as a mathematical value.
pub struct CalcState {
    /// Digits typed for the left operand.
    pub left: Seq<char>,
    /// Digits typed for the right operand.
    pub right: Seq<char>,
    /// The operator waiting for equals, if one was chosen.
    pub operator: Option<Operator>,
    /// The text shown to the user.
    pub display: Seq<char>,
}

pub open spec fn all_digits(s: Seq<char>) -> bool {
    forall|i: int| 0 <= i < s.len() ==> is_digit_char(#[trigger] s[i])
}

impl CalcState {
    /// Both operands are digit text, and digits go to the right operand only
    /// once an operator is pending.
    pub open spec fn wf(self) -> bool {
        &&& all_digits(self.left)
        &&& all_digits(self.right)
        &&& self.operator is None ==> self.right.len() == 0
    }
}

/// The state before any key is pressed: nothing typed, nothing shown.
pub open spec fn fresh_state() -> CalcState {
    CalcState {
        left: Seq::empty(),
        right: Seq::empty(),
        operator: None,
        display: Seq::empty(),
    }
}

/// How a pending calculation is shown: left operand, symbol, right operand.
pub open spec fn expression_text(left: Seq<char>, op: Operator, right: Seq<char>) -> Seq<char> {
    left + symbol_of(op) + right
}

/// The text that precedes a result on the display.
pub open spec fn result_prefix() -> Seq<char> {
    seq!['R', 'e', 's', 'u', 'l', 't', ':', ' ']
}

/// A digit goes to the left operand while no operator is pending, and to the
/// right operand after one is.
pub open spec fn after_digit(s: CalcState, d: u8) -> CalcState {
    match s.operator {
        None => CalcState {
            left: s.left.push(digit_char(d)),
            display: s.left.push(digit_char(d)),
            ..s
        },
        Some(op) => CalcState {
            right: s.right.push(digit_char(d)),
            display: expression_text(s.left, op, s.right.push(digit_char(d))),
            ..s
        },
    }
}

/// An operator replaces whatever operator was pending; nothing is computed.
pub open spec fn after_operator(s: CalcState, op: Operator) -> CalcState {
    CalcState { operator: Some(op), display: expression_text(s.left, op, s.right), ..s }
}

/// Equals with no operator pending changes nothing; otherwise it clears both
/// operands and the operator, and the display waits for the result.
pub open spec fn after_equals(s: CalcState) -> CalcState {
    if s.operator is None {
        s
    } else {
        CalcState { left: Seq::empty(), right: Seq::empty(), operator: None, display: s.display }
    }
}

/// The display after the result of an evaluation, printed as `value`, is shown.
pub open spec fn after_result(s: CalcState, value: Seq<char>) -> CalcState {
    CalcState { display: result_prefix() + value, ..s }
}

/// The state after message `m`.
pub open spec fn step(s: CalcState, m: Message) -> CalcState {
    match m {
        Message::Number(d) => after_digit(s, d),
        Message::Op(op) => after_operator(s, op),
        Message::Equal => after_equals(s),
    }
}

/// The state after the messages `ms`, in order.
pub open spec fn run(s: CalcState, ms: Seq<Message>) -> CalcState
    decreases ms.len(),
{
    if ms.len() == 0 {
        s
    } else {
        step(run(s, ms.drop_last()), ms.last())
    }
}

/// What the caller of the machine has to do after a message.
pub enum ActionView {
    /// Show the new display.
    Redraw,
    /// Equals came with no operator pending: report it; nothing changed.
    NoOperator,
    /// Evaluate `left op right` and show the result.
    Evaluate { left: Seq<char>, op: Operator, right: Seq<char> },
}

/// The action that message `m` asks for in state `s`.
pub open spec fn action_of(s: CalcState, m: Message) -> ActionView {
    match m {
        Message::Equal => match s.operator {
            None => ActionView::NoOperator,
            Some(op) => ActionView::Evaluate { left: s.left, op, right: s.right },
        },
        _ => ActionView::Redraw,
    }
}

/// A calculation to carry out: the operands as digit text (empty text
/// stands for zero) and the operator between them.
pub struct Evaluation {
    pub left: String,
    pub op: Operator,
    pub right: String,
}

/// What the caller has to do after a message.
pub enum Action {
    Redraw,
    NoOperator,
    Evaluate(Evaluation),
}

impl View for Action {
    type V = ActionView;

    open spec fn view(&self) -> ActionView {
        match self {
            Action::Redraw => ActionView::Redraw,
            Action::NoOperator => ActionView::NoOperator,
            Action::Evaluate(e) => ActionView::Evaluate { left: e.left@, op: e.op, right: e.right@ },
        }
    }
}

/// The text of digit `d`.
fn digit_text(d: u8) -> (r: &'static str)
    requires
        d < 10,
    ensures
        r@ == seq![digit_char(d)],
{
    proof {
        reveal_strlit("0");
        reveal_strlit("1");
        reveal_strlit("2");
        reveal_strlit("3");
        reveal_strlit("4");
        reveal_strlit("5");
        reveal_strlit("6");
        reveal_strlit("7");
        reveal_strlit("8");
        reveal_strlit("9");
    }
    match d {
        0 => "0",
        1 => "1",
        2 => "2",
        3 => "3",
        4 => "4",
        5 => "5",
        6 => "6",
        7 => "7",
        8 => "8",
        _ => "9",
    }
}

/// The display text of `left op right`.
fn expression(left: &String, op: Operator, right: &String) -> (r: String)
    ensures
        r@ == expression_text(left@, op, right@),
{
    let mut text = left.clone();
    text.append(op.symbol());
    text.append(right.as_str());
    text
}

/// The keypad calculator: the operands typed so far, the pending operator
/// and the display text.
pub struct Calculator {
    left: String,
    right: String,
    operator: Option<Operator>,
    display: String,
}

impl View for Calculator {
    type V = CalcState;

    closed spec fn view(&self) -> CalcState {
        CalcState {
            left: self.left@,
            right: self.right@,
            operator: self.operator,
            display: self.display@,
        }
    }
}

impl Calculator {
    /// A calculator with nothing typed and an empty display.
    pub fn new() -> (r: Calculator)
        ensures
            r@ == fresh_state(),
            r@.wf(),
    {
        let r = Calculator {
            left: String::new(),
            right: String::new(),
            operator: None,
            display: String::new(),
        };
        proof {
            assert(r@ =~= fresh_state());
        }
        r
    }

    /// Presses the key of digit `d`.
    pub fn press_digit(&mut self, d: u8)
        requires
            d < 10,
        ensures
            final(self)@ == after_digit(old(self)@, d),
    {
        let digit = digit_text(d);
        match self.operator {
            None => {
                self.left.append(digit);
                self.display = self.left.clone();
                proof {
                    assert(self.left@ =~= old(self)@.left.push(digit_char(d)));
                    assert(self@ =~= after_digit(old(self)@, d));
                }
            },
            Some(op) => {
                self.right.append(digit);
                self.display = expression(&self.left, op, &self.right);
                proof {
                    assert(self.right@ =~= old(self)@.right.push(digit_char(d)));
                    assert(self@ =~= after_digit(old(self)@, d));
                }
            },
        }
    }

    /// Presses the key of operator `op`, which replaces any pending operator.
    pub fn press_operator(&mut self, op: Operator)
        ensures
            final(self)@ == after_operator(old(self)@, op),
    {
        self.operator = Some(op);
        self.display = expression(&self.left, op, &self.right);
    }

    /// Presses equals. With no operator pending nothing changes and the
    /// result is `NoOperator`. Otherwise the pending calculation is handed
    /// out and the operands and the operator are cleared; the display keeps
    /// its text until the result is shown with `show_result`.
    pub fn press_equals(&mut self) -> (a: Action)
        ensures
            final(self)@ == after_equals(old(self)@),
            a@ == action_of(old(self)@, Message::Equal),
            old(self)@.operator is None ==> final(self)@ == old(self)@ && a@ == ActionView::NoOperator,
    {
        match self.operator {
            None => Action::NoOperator,
            Some(op) => {
                let evaluation = Evaluation { left: self.left.clone(), op, right: self.right.clone() };
                self.left = String::new();
                self.right = String::new();
                self.operator = None;
                proof {
                    assert(self@ =~= after_equals(old(self)@));
                }
                Action::Evaluate(evaluation)
            },
        }
    }

    /// Shows the result of an evaluation, printed as `value`.
    pub fn show_result(&mut self, value: &str)
        ensures
            final(self)@ == after_result(old(self)@, value@),
    {
        proof {
            reveal_strlit("Result: ");
        }
        let mut text = String::from_str("Result: ");
        text.append(value);
        self.display = text;
        proof {
            assert("Result: "@ =~= result_prefix());
            assert(self@ =~= after_result(old(self)@, value@));
        }
    }

    /// Handles one message and says what the caller has to do next.
    pub fn handle(&mut self, m: Message) -> (a: Action)
        requires
            m.is_valid(),
        ensures
            final(self)@ == step(old(self)@, m),
            a@ == action_of(old(self)@, m),
            old(self)@.wf() ==> final(self)@.wf(),
    {
        proof {
            if old(self)@.wf() {
                lemma_step_preserves_wf(old(self)@, m, Seq::empty());
            }
        }
        match m {
            Message::Number(d) => {
                self.press_digit(d);
                Action::Redraw
            },
            Message::Op(op) => {
                self.press_operator(op);
                Action::Redraw
            },
            Message::Equal => self.press_equals(),
        }
    }

    /// The text shown to the user.
    pub fn display(&self) -> (r: &str)
        ensures
            r@ == self@.display,
    {
        self.display.as_str()
    }

    /// The digits typed for the left operand.
    pub fn left_text(&self) -> (r: &str)
        ensures
            r@ == self@.left,
    {
        self.left.as_str()
    }

    /// The digits typed for the right operand.
    pub fn right_text(&self) -> (r: &str)
        ensures
            r@ == self@.right,
    {
        self.right.as_str()
    }

    /// The operator waiting for equals, if any.
    pub fn operator(&self) -> (r: Option<Operator>)
        ensures
            r == self@.operator,
    {
        self.operator
    }
}

} // verus!
