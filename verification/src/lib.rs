use vstd::prelude::*;

pub mod negotiate;
pub mod resolver;
pub mod router;
pub mod session;
pub mod stream;
pub mod upgrade;

verus! {

/// Marker for the task executor the HTTP/2 serving path is built with; the
/// unverified serving layer supplies its spawning behaviour.
#[derive(Clone)]
pub struct TokioExecutor;

} // verus!
