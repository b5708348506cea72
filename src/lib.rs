//! Grading of untrusted source submissions: a question catalogue and the
//! decision logic of a sandboxed compile-then-run evaluation.
//!
//! The evaluation is driven as a state machine: every remote engine call is an
//! action that the library asks for, and its answer is an event that the
//! library turns into the next state and the next action.

pub mod question_bank;
pub mod outcome;
pub mod evaluation;
pub mod trace;
pub mod sandbox;
pub mod admission;
pub mod marking;
