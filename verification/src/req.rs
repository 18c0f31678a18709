//! The typed requests of the endpoint catalog.

pub mod add;
pub mod dag;
pub mod files;
