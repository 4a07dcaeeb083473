//! Access control and write consistency for a versioned knowledge graph.
//!
//! - [`schema`]: identifiers, relation tuples, and what a set of tuples
//!   permits.
//! - [`zanzibar`]: consistency tokens and the consistency a check asks for.
//! - [`backend`]: what is asked of the service that stores the tuples, and
//!   a backend that keeps them in memory.
//! - [`api`]: the authorization client, one method for each thing the
//!   domain can ask.
//! - [`knowledge`] and [`store`]: entities, and the store that versions
//!   them under optimistic concurrency.
//! - [`rest`]: the entity operations as the HTTP layer sees them.
//! - [`snapshot`]: the channel that streams owners into the store while a
//!   snapshot is restored.
//! - [`packages`]: the registry of state package creators.
//!
//! Contracts speak of a backend through its history, the set of tuples
//! after each write, and of the store through the sequence of its
//! entities. What is stated of all inputs is proved; what rests on the
//! channel of the `futures` crate is said where it is assumed.

pub mod schema;
pub mod zanzibar;
pub mod backend;
pub mod api;
pub mod knowledge;
pub mod store;
pub mod rest;
pub mod snapshot;
pub mod packages;
