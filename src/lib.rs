//! A four-function keypad calculator: the state machine behind the keys,
//! with the laws that its transitions obey.
//!
//! The machine keeps the operands as the digit text typed so far. Turning
//! that text into numbers and doing the arithmetic is floating-point work,
//! which the caller performs on the [`Evaluation`] that an equals press hands
//! out; the printed value then goes back through [`Calculator::show_result`].

pub mod keys;
pub mod laws;
pub mod machine;

pub use keys::{Message, Operator};
pub use machine::{Action, Calculator, Evaluation};
