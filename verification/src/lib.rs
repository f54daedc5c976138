//! A token-issuance engine for the OAuth 2.0 token endpoint.
//!
//! Given a grant request, the engine checks the shape of the request and the
//! identity of the requester against a datastore, and either issues tokens or
//! rejects the request with one error of a fixed vocabulary. Each grant type
//! has one processor in [`token`]; what a processor returns and what it
//! writes is stated as a function of the datastore, the request, the time and
//! the identifier seeds that the caller supplies, and [`laws`] proves what
//! follows from that for every datastore and every request.
//!
//! The engine keeps nothing between requests. All state is in the
//! [`store::Datastore`], which a processor takes exclusively for the length of
//! one request.

pub mod text;
pub mod error;
pub mod table;
pub mod records;
pub mod scope;
pub mod store;
pub mod validate;
pub mod generate;
pub mod token;
pub mod laws;
