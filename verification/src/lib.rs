//! Decision logic of a hotel-booking gateway: the booking saga, the
//! cancellation flow with its deferred retry, and the assembly of per-user
//! views from several backend answers.
//!
//! Nothing here performs a request. Each workflow is a transition function
//! from a state and the answer to the last request to the next state and the
//! next request; the caller performs the request and comes back.

pub mod status;
pub mod dto;
pub mod dates;
pub mod clock;
pub mod pricing;
pub mod downstream;
pub mod failure;
pub mod saga;
pub mod saga_laws;
pub mod retry;
pub mod cancel;
pub mod retry_laws;
pub mod cancel_laws;
pub mod aggregate;
pub mod passthrough;
