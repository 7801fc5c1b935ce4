//! A fixed-capacity vector backed by caller-supplied storage, together with
//! a few small companion modules: a string builder, a two-source error enum,
//! an ordering helper, and cross-unit duration comparisons.

pub mod builder;
pub mod digits;
pub mod duration;
pub mod errors;
pub mod ordering;
pub mod stack;
