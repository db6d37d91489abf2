//! Values that the server hands to its routes.
use vstd::prelude::*;

verus! {

/// The base URL under which the application is reached.
#[derive(Debug)]
pub struct ApplicationBaseUrl(pub String);

} // verus!
