//! A two-variant sum type ("Ok"/"Err") built from a pair of payload slots and
//! an explicit discriminant word restricted to two bit-complementary legal
//! constants. A single dispatch primitive, `map_or_else`, is the only
//! operation that reads the payload storage; every combinator, the boolean
//! algebra on the unit specialization, and the control-flow drivers are
//! derived from it. The discriminant's legality and the exclusivity of the
//! live payload are machine-checked invariants: the corrupted-discriminant
//! arm of the dispatch is proved unreachable.

mod boolean;
mod combinators;
mod control;
pub mod laws;
mod option;
mod sum;

pub use boolean::Else;
pub use control::continues;
pub use control::runs;
pub use sum::lemma_view_determines;
pub use sum::HardBool;
pub use sum::HardOption;
pub use sum::HardResult;
pub use sum::SumView;
