//! Types of the standard library that pass through the wrapper unopened.

use std::pin::Pin;
use std::task::{Context, Poll};
use vstd::prelude::*;

verus! {

/// `std::pin::Pin`, carried as an opaque value.
#[verifier::external_type_specification]
#[verifier::external_body]
#[verifier::reject_recursive_types(P)]
pub struct ExPin<P>(Pin<P>);

/// `std::task::Context`, carried as an opaque value.
#[verifier::external_type_specification]
#[verifier::external_body]
pub struct ExContext<'a>(Context<'a>);

/// `std::task::Poll`, carried as an opaque value.
#[verifier::external_type_specification]
#[verifier::external_body]
#[verifier::reject_recursive_types(T)]
pub struct ExPoll<T>(Poll<T>);

} // verus!
