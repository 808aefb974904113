//! A registry of named projects and the workflow that turns a project name
//! into a live terminal session: lookups, tag edits, listing text and the
//! ordered, idempotent activation steps.
pub mod activation;
pub mod project;
pub mod registry;
pub mod tags;
pub mod text;
