//! What holds across operations: laws over the contracts of several functions at once.
pub mod agents;
pub mod answers;
pub mod boundary;
pub mod catalogs;
pub mod commands;
pub mod discussion;
pub mod feed;
pub mod gates;
pub mod governed;
pub mod guards;
pub mod hierarchy;
pub mod history;
pub mod identifiers;
pub mod ingress;
pub mod issue_changes;
pub mod lifecycle;
pub mod listings;
pub mod numbers;
pub mod pages;
pub mod past;
pub mod plans;
pub mod positive;
pub mod privacy;
pub mod project_changes;
pub mod references;
pub mod reorders;
pub mod replies;
pub mod requests;
pub mod revisions;
pub mod rows;
pub mod seen;
pub mod statuses;
pub mod texts;
pub mod traces;
pub mod visibility;
pub mod workflows;
