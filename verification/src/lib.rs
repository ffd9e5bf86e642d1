pub mod eval;
pub mod laws;
pub mod semantics;
pub mod term;
pub mod vm;

pub use crate::eval::{eval, EvalErr};
pub use crate::semantics::{EvalRes, Outcome};
pub use crate::term::{Term, TermV, is_value, show_value};
pub use crate::vm::{DefaultVM, TestVM, VM};
