//! Types of outside crates that the client carries without looking inside.

use vstd::prelude::*;

verus! {

/// reqwest's HTTP client: the transport handle, handed on to the caller.
#[verifier::external_type_specification]
#[verifier::external_body]
pub struct ExHttpClient(reqwest::Client);

/// tokio's asynchronous lock, which guards the function registry.
#[verifier::external_type_specification]
#[verifier::external_body]
#[verifier::reject_recursive_types(T)]
pub struct ExAsyncMutex<T: ?Sized>(tokio::sync::Mutex<T>);

/// Relies on tokio's `From<T> for Mutex<T>`, which is `Mutex::new`: it wraps
/// `t` in a new, unlocked lock.
pub assume_specification<T>[ <tokio::sync::Mutex<T> as core::convert::From<T>>::from ](t: T) -> tokio::sync::Mutex<T>;

} // verus!
