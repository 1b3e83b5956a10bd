//! Pairs texture images with sibling sampler configuration documents and keeps
//! each image's sampler state in step with its configuration.
pub mod config;
pub mod reconcile;
pub mod table;
