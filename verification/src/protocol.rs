//! How a primitive of more than one step talks to its caller.
//!
//! The primitive names a step; the caller performs it and reports the
//! outcome; the step's `resume` says what follows: another step, or the end
//! with the primitive's result. No step is tried twice.

use crate::error::{ShawtyError, ShawtyErrorView};
use vstd::prelude::*;

verus! {

/// What follows a reported outcome.
#[derive(Debug)]
pub enum Next<S, T> {
    /// Perform this step and report how it went.
    Perform(S),
    /// The primitive has ended, with this result.
    Finished(Result<T, ShawtyError>),
}

/// The mathematical value of a [`Next`].
pub enum NextView<S, T> {
    Perform(S),
    Finished(Result<T, ShawtyErrorView>),
}

impl<S: View, T: View> View for Next<S, T> {
    type V = NextView<S::V, T::V>;

    open spec fn view(&self) -> NextView<S::V, T::V> {
        match *self {
            Next::Perform(step) => NextView::Perform(step@),
            Next::Finished(Ok(value)) => NextView::Finished(Ok(value@)),
            Next::Finished(Err(error)) => NextView::Finished(Err(error@)),
        }
    }
}

/// The view of a primitive's result: the value, or the error's view.
pub open spec fn outcome_view<T>(result: Result<T, ShawtyError>) -> Result<T, ShawtyErrorView> {
    match result {
        Ok(value) => Ok(value),
        Err(error) => Err(error@),
    }
}

} // verus!
