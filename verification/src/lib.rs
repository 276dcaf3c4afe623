//! Client-side binding for the query API of the PostHog analytics service.
//!
//! The library plans each HTTP call of the query API and reads the answer
//! that came back; sending the call over the network is left to the caller.

pub mod api;
