//! Laws of the calculator over sequences of key presses.

use vstd::prelude::*;

use crate::keys::{digit_char, is_digit_char, Message, Operator};
use crate::machine::{
    action_of, after_equals, after_result, all_digits, expression_text, fresh_state, run, step,
    ActionView, CalcState,
};

verus! {

/// The text that the digits `ds` spell.
pub open spec fn digits_text(ds: Seq<u8>) -> Seq<char> {
    ds.map_values(|d: u8| digit_char(d))
}

/// The messages that pressing the digit keys `ds` in order sends.
pub open spec fn digit_presses(ds: Seq<u8>) -> Seq<Message> {
    ds.map_values(|d: u8| Message::Number(d))
}

pub open spec fn all_valid(ms: Seq<Message>) -> bool {
    forall|i: int| 0 <= i < ms.len() ==> (#[trigger] ms[i]).is_valid()
}

/// The character of a decimal digit is a digit character.
pub proof fn lemma_digit_char_is_digit(d: u8)
    requires
        d < 10,
    ensures
        is_digit_char(digit_char(d)),
{
}

/// Running two sequences of messages one after the other is running their
/// concatenation.
pub proof fn lemma_run_concat(s: CalcState, a: Seq<Message>, b: Seq<Message>)
    ensures
        run(s, a + b) == run(run(s, a), b),
    decreases b.len(),
{
    if b.len() == 0 {
        assert(a + b =~= a);
    } else {
        lemma_run_concat(s, a, b.drop_last());
        assert((a + b).drop_last() =~= a + b.drop_last());
        assert((a + b).last() == b.last());
    }
}

/// Running a single message is one step.
pub proof fn lemma_run_one(s: CalcState, m: Message)
    ensures
        run(s, seq![m]) == step(s, m),
{
    assert(seq![m].drop_last() =~= Seq::<Message>::empty());
    assert(run(s, Seq::<Message>::empty()) == s);
}

/// Typing digits appends their text to the operand being entered: the left
/// one while no operator is pending, the right one after.
pub proof fn lemma_run_digits(s: CalcState, ds: Seq<u8>)
    ensures
        ds.len() == 0 ==> run(s, digit_presses(ds)) == s,
        ds.len() > 0 && s.operator is None ==> run(s, digit_presses(ds)) == (CalcState {
            left: s.left + digits_text(ds),
            display: s.left + digits_text(ds),
            ..s
        }),
        ds.len() > 0 && s.operator is Some ==> run(s, digit_presses(ds)) == (CalcState {
            right: s.right + digits_text(ds),
            display: expression_text(s.left, s.operator->0, s.right + digits_text(ds)),
            ..s
        }),
    decreases ds.len(),
{
    if ds.len() > 0 {
        let init = ds.drop_last();
        let c = digit_char(ds.last());
        lemma_run_digits(s, init);
        assert(digit_presses(ds).drop_last() =~= digit_presses(init));
        assert(digits_text(ds) =~= digits_text(init).push(c));
        assert((s.left + digits_text(init)).push(c) =~= s.left + digits_text(ds));
        assert((s.right + digits_text(init)).push(c) =~= s.right + digits_text(ds));
        if init.len() == 0 {
            assert(s.left + digits_text(init) =~= s.left);
            assert(s.right + digits_text(init) =~= s.right);
        }
    }
}

/// Digits typed with no operator pressed are exactly what is shown, and
/// they make up the left operand.
pub proof fn lemma_digits_only(ds: Seq<u8>)
    ensures
        run(fresh_state(), digit_presses(ds)).display == digits_text(ds),
        run(fresh_state(), digit_presses(ds)).left == digits_text(ds),
        run(fresh_state(), digit_presses(ds)).right.len() == 0,
        run(fresh_state(), digit_presses(ds)).operator is None,
{
    lemma_run_digits(fresh_state(), ds);
    assert(Seq::<char>::empty() + digits_text(ds) =~= digits_text(ds));
    if ds.len() == 0 {
        assert(digits_text(ds) =~= Seq::<char>::empty());
    }
}

/// Typing a left operand, an operator and a right operand shows the whole
/// calculation; equals then evaluates exactly those operands with that
/// operator and clears the operands and the operator.
pub proof fn lemma_equals_evaluates_typed_operands(ls: Seq<u8>, op: Operator, rs: Seq<u8>)
    ensures
        run(fresh_state(), digit_presses(ls) + seq![Message::Op(op)] + digit_presses(rs)).display
            == expression_text(digits_text(ls), op, digits_text(rs)),
        action_of(
            run(fresh_state(), digit_presses(ls) + seq![Message::Op(op)] + digit_presses(rs)),
            Message::Equal,
        ) == (ActionView::Evaluate { left: digits_text(ls), op, right: digits_text(rs) }),
        step(
            run(fresh_state(), digit_presses(ls) + seq![Message::Op(op)] + digit_presses(rs)),
            Message::Equal,
        ) == (CalcState {
            left: Seq::empty(),
            right: Seq::empty(),
            operator: None,
            display: expression_text(digits_text(ls), op, digits_text(rs)),
        }),
{
    let typed = run(fresh_state(), digit_presses(ls));
    lemma_digits_only(ls);
    lemma_run_concat(fresh_state(), digit_presses(ls), seq![Message::Op(op)]);
    lemma_run_one(typed, Message::Op(op));
    let chosen = step(typed, Message::Op(op));
    lemma_run_concat(
        fresh_state(),
        digit_presses(ls) + seq![Message::Op(op)],
        digit_presses(rs),
    );
    lemma_run_digits(chosen, rs);
    assert(chosen.right + digits_text(rs) =~= digits_text(rs));
    if rs.len() == 0 {
        assert(digits_text(rs) =~= chosen.right);
    }
}

/// States that differ at most in their display, with no operator pending,
/// agree after any messages that start with a digit.
proof fn lemma_display_forgotten(a: CalcState, b: CalcState, ms: Seq<Message>)
    requires
        a.left == b.left,
        a.right == b.right,
        a.operator is None,
        b.operator is None,
        ms.len() > 0,
        ms[0] is Number,
    ensures
        run(a, ms) == run(b, ms),
    decreases ms.len(),
{
    if ms.len() > 1 {
        lemma_display_forgotten(a, b, ms.drop_last());
    } else {
        assert(ms.drop_last() =~= Seq::<Message>::empty());
        assert(run(a, Seq::<Message>::empty()) == a);
        assert(run(b, Seq::<Message>::empty()) == b);
        assert(ms.last() == ms[0]);
    }
}

/// After equals evaluates a calculation, whether or not its result has been
/// shown yet, any key presses that start with a digit behave exactly as on
/// a fresh calculator: nothing of the earlier operands is left.
pub proof fn lemma_fresh_after_equals(s: CalcState, value: Seq<char>, ms: Seq<Message>)
    requires
        s.operator is Some,
        ms.len() > 0,
        ms[0] is Number,
    ensures
        run(after_equals(s), ms) == run(fresh_state(), ms),
        run(after_result(after_equals(s), value), ms) == run(fresh_state(), ms),
{
    lemma_display_forgotten(after_equals(s), fresh_state(), ms);
    lemma_display_forgotten(after_result(after_equals(s), value), fresh_state(), ms);
}

/// An operator pressed right after another replaces it: the first leaves no
/// trace, and nothing is computed in between.
pub proof fn lemma_operator_overwrite(
    s: CalcState,
    first: Operator,
    second: Operator,
    ms: Seq<Message>,
)
    ensures
        step(step(s, Message::Op(first)), Message::Op(second)) == step(s, Message::Op(second)),
        run(s, seq![Message::Op(first), Message::Op(second)] + ms) == run(
            s,
            seq![Message::Op(second)] + ms,
        ),
{
    let both = seq![Message::Op(first), Message::Op(second)];
    lemma_run_concat(s, both, ms);
    lemma_run_concat(s, seq![Message::Op(second)], ms);
    lemma_run_one(s, Message::Op(second));
    assert(both.drop_last() =~= seq![Message::Op(first)]);
    lemma_run_one(s, Message::Op(first));
}

/// A left operand, two operators in a row and a right operand: equals
/// evaluates the left operand and the right operand with the second
/// operator only.
pub proof fn lemma_last_operator_wins(
    ls: Seq<u8>,
    first: Operator,
    second: Operator,
    rs: Seq<u8>,
)
    ensures
        action_of(
            run(
                fresh_state(),
                digit_presses(ls) + seq![Message::Op(first), Message::Op(second)] + digit_presses(
                    rs,
                ),
            ),
            Message::Equal,
        ) == (ActionView::Evaluate { left: digits_text(ls), op: second, right: digits_text(rs) }),
{
    let typed = run(fresh_state(), digit_presses(ls));
    let both = seq![Message::Op(first), Message::Op(second)];
    lemma_run_concat(fresh_state(), digit_presses(ls) + both, digit_presses(rs));
    lemma_run_concat(fresh_state(), digit_presses(ls), both);
    lemma_run_concat(
        fresh_state(),
        digit_presses(ls) + seq![Message::Op(second)],
        digit_presses(rs),
    );
    lemma_run_concat(fresh_state(), digit_presses(ls), seq![Message::Op(second)]);
    lemma_operator_overwrite(typed, first, second, Seq::empty());
    assert(both + Seq::<Message>::empty() =~= both);
    assert(seq![Message::Op(second)] + Seq::<Message>::empty() =~= seq![Message::Op(second)]);
    lemma_equals_evaluates_typed_operands(ls, second, rs);
}

/// Every valid message, and showing a result, keeps the state well formed.
pub proof fn lemma_step_preserves_wf(s: CalcState, m: Message, value: Seq<char>)
    requires
        s.wf(),
        m.is_valid(),
    ensures
        step(s, m).wf(),
        after_result(s, value).wf(),
{
    if let Message::Number(d) = m {
        lemma_digit_char_is_digit(d);
        assert(all_digits(s.left.push(digit_char(d))));
        assert(all_digits(s.right.push(digit_char(d))));
    }
    if m is Equal && s.operator is Some {
        assert(all_digits(Seq::<char>::empty()));
    }
}

/// Any valid messages keep a well-formed state well formed.
pub proof fn lemma_run_preserves_wf(s: CalcState, ms: Seq<Message>)
    requires
        s.wf(),
        all_valid(ms),
    ensures
        run(s, ms).wf(),
    decreases ms.len(),
{
    if ms.len() > 0 {
        lemma_run_preserves_wf(s, ms.drop_last());
        assert(ms.last().is_valid());
        lemma_step_preserves_wf(run(s, ms.drop_last()), ms.last(), Seq::empty());
    }
}

} // verus!
