//! Projects, issues and teams, with revision-safe changes, stable identifiers, an activity feed and
//! final authorization.
pub mod access;
pub mod activity;
pub mod admin_handlers;
pub mod catalog;
pub mod clock;
pub mod collaboration;
pub mod collaboration_handlers;
pub mod config;
pub mod contract;
pub mod descriptor;
pub mod export;
pub mod failure;
pub mod governance;
pub mod ingress;
pub mod issue_pages;
pub mod issue_rules;
pub mod issues;
pub mod json;
pub mod laws;
pub mod model;
pub mod operations;
pub mod planning;
pub mod product_handlers;
pub mod project_status;
pub mod projects;
pub mod retention;
pub mod schema;
pub mod service;
pub mod store;
pub mod table;
pub mod teams;
pub mod text;
pub mod tools;
pub mod validate;
pub mod web;
pub mod workflow;

use vstd::prelude::*;

verus! {

/// Keeps the Plugins of this crate in native Host assemblies that name nothing else of it. Doing
/// nothing, it gives back nothing.
pub fn link() -> (done: ())
    ensures
        done == (),
{
}

} // verus!
