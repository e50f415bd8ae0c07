//! Lenses: composable accessors that read and replace a part of a nested
//! value.
//!
//! * [`lens`]: lenses over immutable values, built from an extractor and a
//!   wither, and their composition.
//! * [`optic`]: the lens as a pair of functions, the lens laws, and the proofs
//!   that composition keeps them.
//! * [`mutable`]: lenses that lend a mutable reference to the part, for
//!   changes in place.
//! * [`address`]: two nested records with the extractors and withers of their
//!   fields.
//! * [`monad`]: mapping, sequencing and binding over `Vec`, `Option`, `Box`
//!   and `Rc`.
pub mod address;
pub mod lens;
pub mod monad;
pub mod mutable;
pub mod optic;
