use vstd::prelude::*;

pub mod artifact;
pub mod builder;
pub mod convert;
pub mod laws;
pub mod model;
pub mod unwrapped;
pub mod utils;
pub mod values;
pub mod wrapped;

pub use unwrapped::{Opts, UnwrappedFieldProcOpts, UnwrappedProcUsageOpts, unwrapped};
pub use utils::{
    CommonOpts, FieldProcOpts as CommonFieldProcOpts, ProcUsageOpts as CommonProcUsageOpts,
};
pub use wrapped::{FieldProcOpts, WrappedOpts, WrappedProcUsageOpts, wrapped};

verus! {

/// Error reported by the fallible conversion routines and by the
/// parameterized reconstruction: a required value was absent.  It carries
/// the name of the offending field.
#[derive(Debug)]
pub struct UnwrappedError {
    pub field_name: String,
}

impl UnwrappedError {
    /// Human-readable description of the failure.
    pub fn message(&self) -> (r: String)
        ensures
            r@ == "Failed to unwrap an Option for field '"@ + self.field_name@
                + "', found None"@,
    {
        let mut s = String::from_str("Failed to unwrap an Option for field '");
        s.append(self.field_name.as_str());
        s.append("', found None");
        s
    }
}

/// Capability marker: associates a source type with its generated
/// counterpart in the unwrap direction.
pub trait Unwrapped {
    type Unwrapped;
}

/// Capability marker: associates a source type with its generated
/// counterpart in the wrap direction.
pub trait Wrapped {
    type Wrapped;
}

} // verus!
