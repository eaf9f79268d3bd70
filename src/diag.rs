//! Diagnostics: why a declaration was refused.
use vstd::prelude::*;

verus! {

/// A generation-time failure. Each one replaces the whole expansion of the
/// declaration it concerns.
#[derive(Debug)]
pub enum GenError {
    /// A state description has generic parameters.
    StateHasGenerics,
    /// A state description has no variants.
    EmptyState,
    /// A variant is neither a unit variant nor a single-payload variant.
    InvalidVariant { variant: String },
    /// Two variants share a name.
    DuplicateVariant { variant: String },
    /// A machine description has no generic parameter.
    MachineNoGenerics,
    /// No state description is registered under the scope key.
    StateNotFound { scope: String },
    /// No machine description is registered under the scope key.
    MachineNotFound { scope: String },
    /// The machine asks for capabilities that its state does not have.
    MissingDerives { missing: Vec<String> },
    /// The machine's first generic parameter is not the state's name.
    GenericMismatch { machine: String, expected: String, found: Option<String> },
    /// A transition block's target is not a variant of the paired state.
    InvalidStateVariant { state: Option<String>, state_enum: String },
    /// A transition block has no methods.
    NoTransitionMethods,
    /// A transition function does not take `self` or `mut self`.
    NotAMethod { func: String },
    /// A transition function's return type does not resolve to a variant.
    UnresolvedReturn { func: String },
    /// A transition body calls `get_data_mut` but the machine does not
    /// derive `Clone`.
    DataMutNeedsMachineClone,
    /// A transition body calls `get_data_mut` but the state does not derive
    /// `Clone`.
    DataMutNeedsStateClone,
    /// A validators block has no methods.
    NoValidators,
    /// No predicate is declared for a variant.
    MissingValidator { variant: String },
    /// A predicate names no declared variant.
    UnknownValidator { func: String },
    /// A predicate takes parameters besides `&self`.
    ValidatorArity { func: String },
    /// A predicate's receiver is not `&self`.
    ValidatorReceiver { func: String },
    /// A predicate's success payload is not the variant's payload.
    ValidatorReturn { func: String, expected: String, actual: String },
}

} // verus!
