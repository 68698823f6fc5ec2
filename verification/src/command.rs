//! The base layer: command line over environment over compiled-in default.

use crate::config::{Setter, Value};
use vstd::prelude::*;

verus! {

/// What the base layer resolves to: the command-line value if there is one,
/// else the environment's, else the default.
pub open spec fn based<T>(primary: Option<T>, secondary: Option<T>, default: T) -> Value<T> {
    match primary {
        Some(value) => Value { value, set_by: Setter::Command },
        None => match secondary {
            Some(value) => Value { value, set_by: Setter::Environment },
            None => Value { value: default, set_by: Setter::Default },
        },
    }
}

/// Resolves one setting of the base layer.
pub fn wrap<T>(primary: Option<T>, secondary: Option<T>, default: T) -> (resolved: Value<T>)
    ensures
        resolved == based(primary, secondary, default),
{
    match primary {
        Some(value) => Value { value, set_by: Setter::Command },
        None => match secondary {
            Some(value) => Value { value, set_by: Setter::Environment },
            None => Value { value: default, set_by: Setter::Default },
        },
    }
}

} // verus!
