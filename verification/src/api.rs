//! The query API: its records, the calls it makes and the answers it reads.

use vstd::prelude::*;

pub mod client;
pub mod json;
pub mod query;

verus! {

/// The one error of the API. Its variants only record where a call failed.
#[derive(Clone, Copy, Debug, PartialEq, Eq, Structural)]
pub enum PostHogApiError {
    /// No answer arrived: the connection failed or timed out.
    Transport,
    /// The service answered with a status outside 200..=299.
    Status(u16),
    /// The status was a success, but the body is not the expected record.
    Decode,
}

} // verus!
