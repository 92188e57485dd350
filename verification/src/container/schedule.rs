//! Steps that are planned first and taken later.

use vstd::prelude::*;

verus! {

/// Steps to take in their order, and the error that follows the last one.
#[derive(Debug)]
pub struct Schedule<T> {
    pub steps: Vec<T>,
    pub fault: Option<String>,
}

} // verus!
