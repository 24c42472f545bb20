//! Authentication, role-based authorization and parameterized query planning
//! for a record API backed by a relational store.
//!
//! A request that opens a session goes through [`auth::sign_in`]; every later
//! request goes through [`auth::authenticate`] and [`auth::authorize`], and
//! what it asks of the store is a [`query::QueryPlan`]. Nothing here touches
//! the network or the store: the caller runs the plans and hands back what
//! the store gave.

pub mod auth;
pub mod errors;
pub mod notes;
pub mod numbering;
pub mod query;
pub mod roles;
pub mod session;
pub mod text;
pub mod trusted;
pub mod users;
