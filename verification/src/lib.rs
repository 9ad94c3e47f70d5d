//! Typed API clients from route metadata.
//!
//! - [`types`]: what is known of a single route
//! - [`registry`]: the types that routes use, each kept once
//! - [`collection`]: the routes of an API with the types that they use
//! - [`builder`]: defines routes, in an Axum router and in a collection alike
//! - [`endpoint`]: what a handler's signature says of its route
//! - [`signature`]: a handler's signature, as far as its route depends on it
//! - [`syntax`]: reads signatures from tokens
//! - [`export`]: writing the TypeScript declarations of the collected types
//! - [`names`]: what types and handlers are called in the client
//! - [`laws`]: what holds of the results of calls, and of calls with one another
//! - [`text`]: text as a sequence of characters

pub mod builder;
pub mod collection;
pub mod endpoint;
pub mod export;
pub mod laws;
pub mod names;
pub mod registry;
pub mod signature;
pub mod syntax;
pub mod text;
pub mod types;
