//! Views of optional values and of results, for contracts that speak of what
//! a function returns in either case.

use vstd::prelude::*;

verus! {

/// The view of an optional value: the view of what it holds, if anything.
pub open spec fn view_option<T: View>(value: Option<T>) -> Option<T::V> {
    match value {
        Some(inner) => Some(inner@),
        None => None,
    }
}

/// The view of a result: the view of the value or of the failure.
pub open spec fn view_result<T: View, E: View>(value: Result<T, E>) -> Result<T::V, E::V> {
    match value {
        Ok(inner) => Ok(inner@),
        Err(failure) => Err(failure@),
    }
}

} // verus!
