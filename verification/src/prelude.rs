//! The names most callers want in scope.

pub use crate::either::Either;
pub use crate::either::Either::Left;
pub use crate::either::Either::Right;
