//! A generic two-sided value type, together with an ecosystem of adapters and
//! a verified tagged-stream demultiplexer: one sequence of tagged elements is
//! split into two independent, lazily-pulled channel views that consume the
//! source exactly once, in a single forward pass, on demand.

mod either;
mod lr;
mod model;
mod refr;
mod split;
mod split_arc;
mod split_rc;

pub mod iter;
pub mod prelude;

pub use either::Either;
pub use lr::LeftRight;
pub use lr::spec_inner;
pub use refr::Boo;
pub use model::lefts;
pub use model::rights;
pub use model::tags;
pub use model::weave;
pub use model::count_true;
pub use model::leading_lefts;
pub use model::leading_rights;
pub use model::lemma_stable_bipartition;
pub use model::lemma_no_loss_no_duplication;
pub use model::lemma_channels_of_concat;
pub use model::lemma_channels_of_singleton;
pub use model::lemma_channels_all_lefts;
pub use model::lemma_channels_all_rights;
pub use split::SplitState;
