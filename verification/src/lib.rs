//! Creating a compressed-data tree through the external tree-logic program.
//!
//! A request names the blank tree account, its configuration account, the
//! payer, the tree's derived authority with its bump, and the programs that
//! take part. The library validates the request, assembles the one call to
//! the tree-logic program's "create tree configuration" entry point with
//! the seeds that sign for the authority, and hands on how that call ended.
//!
//! - [`address`]: fixed-width public identifiers.
//! - [`programs`]: the identities of the programs a request must name.
//! - [`account`]: the accounts of a request as plain values.
//! - [`authority`]: deriving and checking the tree's authority.
//! - [`validation`]: what must hold before any call is made.
//! - [`instruction`]: the assembled call and its authorization.
//! - [`handler`]: the request from validation to outcome.
//! - [`error`]: why a request fails.

pub mod account;
pub mod address;
pub mod authority;
pub mod error;
pub mod handler;
pub mod instruction;
pub mod programs;
pub mod validation;
