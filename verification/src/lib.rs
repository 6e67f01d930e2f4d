//! Overflow-safe integer arithmetic: a number, or the fact that a number could
//! not be computed.

pub mod addition;
pub mod checked;
pub mod compare;
pub mod division;
pub mod laws;
pub mod multiplication;
pub mod operators;
pub mod subtraction;
pub mod width;

pub use addition::CheckedAdd;
pub use checked::Checked;
pub use division::{CheckedDiv, CheckedRem};
pub use multiplication::CheckedMul;
pub use subtraction::CheckedSub;
pub use width::FixedWidth;
