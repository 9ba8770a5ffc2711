//! A small toolkit for fitting and evaluating single-feature regression
//! models. The crate holds the discrete heart of such a pipeline: the
//! confusion-matrix bookkeeping behind an ROC sweep, the exact grid
//! geometry of the ASCII curve renderer, the resolution of a sweep
//! precision into a step count, and the epoch schedule of a staged
//! gradient-descent trainer. Floating-point evaluation (predictions,
//! losses, slopes) lives with the callers; everything here is stated and
//! proved over exact integer and character data.

use vstd::prelude::*;

pub mod classification;
pub mod curve;
pub mod order;
pub mod training;

verus! {

/// Marker for the dense numeric container types of the toolkit.
pub trait MLDataStruct {}

/// A trained regression model that can present itself to the user.
pub trait MLModel {
    fn display(&self);
}

/// A logistic-regression model family, abstracted over the scalar types
/// used for its trained weight and bias.
pub trait LogisRegModel {
    type Weight;

    type Bias;

    fn display(&self);
}

/// The closed failure taxonomy of the toolkit. Every operation that the
/// toolkit can refuse reports exactly one of these.
#[derive(Clone, Copy, Debug, PartialEq, Eq, Structural)]
pub enum MLError {
    /// Two operands whose dimensions must agree do not.
    ShapeMismatch,
    /// An operation that needs data received an empty operand.
    EmptyInput,
    /// A value lies outside the domain the operation is defined on.
    DomainViolation,
    /// A sweep precision is unusable, or data does not match the sample
    /// count that a precision demands.
    PrecisionMismatch,
}

} // verus!
