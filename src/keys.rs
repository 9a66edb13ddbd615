//! The keys of the keypad: the operators, the messages that a key press
//! sends, and how a key's label determines its message.

use vstd::prelude::*;

verus! {

/// One of the four binary operations of the keypad.
#[derive(Debug, Clone, Copy, PartialEq, Eq, Structural)]
pub enum Operator {
    Multiply,
    Divide,
    Plus,
    Minus,
}

/// The text shown between the two operands while `op` is pending.
pub open spec fn symbol_of(op: Operator) -> Seq<char> {
    match op {
        Operator::Multiply => seq![' ', '*', ' '],
        Operator::Divide => seq![' ', '/', ' '],
        Operator::Plus => seq![' ', '+', ' '],
        Operator::Minus => seq![' ', '-', ' '],
    }
}

impl Operator {
    /// The operator's symbol, padded with a space on each side.
    pub fn symbol(&self) -> (r: &'static str)
        ensures
            r@ == symbol_of(*self),
    {
        match self {
            Operator::Multiply => {
                proof {
                    reveal_strlit(" * ");
                }
                " * "
            },
            Operator::Divide => {
                proof {
                    reveal_strlit(" / ");
                }
                " / "
            },
            Operator::Plus => {
                proof {
                    reveal_strlit(" + ");
                }
                " + "
            },
            Operator::Minus => {
                proof {
                    reveal_strlit(" - ");
                }
                " - "
            },
        }
    }
}

/// What a key press tells the calculator.
#[derive(Debug, Clone, Copy, PartialEq, Eq, Structural)]
pub enum Message {
    /// A digit key, holding the digit's value.
    Number(u8),
    /// An operator key.
    Op(Operator),
    /// The equals key.
    Equal,
}

/// The character that shows digit `d`.
pub open spec fn digit_char(d: u8) -> char {
    ((d as u32) + ('0' as u32)) as char
}

pub open spec fn is_digit_char(c: char) -> bool {
    '0' <= c && c <= '9'
}

/// The message of the key whose label is the single character `c`.
pub open spec fn message_of_char(c: char) -> Option<Message> {
    if is_digit_char(c) {
        Some(Message::Number(((c as u32) - ('0' as u32)) as u8))
    } else if c == '+' {
        Some(Message::Op(Operator::Plus))
    } else if c == '-' {
        Some(Message::Op(Operator::Minus))
    } else if c == '*' {
        Some(Message::Op(Operator::Multiply))
    } else if c == '/' {
        Some(Message::Op(Operator::Divide))
    } else if c == '=' {
        Some(Message::Equal)
    } else {
        None
    }
}

/// The message of the key labelled `label`: every key's label is a single
/// character, so any other label names no key.
pub open spec fn message_of_label(label: Seq<char>) -> Option<Message> {
    if label.len() == 1 {
        message_of_char(label[0])
    } else {
        None
    }
}

impl Message {
    /// A digit message holds a single decimal digit.
    pub open spec fn is_valid(self) -> bool {
        match self {
            Message::Number(d) => d < 10,
            _ => true,
        }
    }

    /// The message that the key labelled `label` sends, if `label` is the
    /// label of a key: "0" to "9", "+", "-", "*", "/" or "=".
    pub fn from_label(label: &str) -> (r: Option<Message>)
        ensures
            r == message_of_label(label@),
            r matches Some(m) ==> m.is_valid(),
    {
        if label.unicode_len() != 1 {
            return None;
        }
        let c = label.get_char(0);
        if '0' <= c && c <= '9' {
            Some(Message::Number(((c as u32) - ('0' as u32)) as u8))
        } else if c == '+' {
            Some(Message::Op(Operator::Plus))
        } else if c == '-' {
            Some(Message::Op(Operator::Minus))
        } else if c == '*' {
            Some(Message::Op(Operator::Multiply))
        } else if c == '/' {
            Some(Message::Op(Operator::Divide))
        } else if c == '=' {
            Some(Message::Equal)
        } else {
            None
        }
    }
}

} // verus!
