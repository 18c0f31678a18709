//! The typed responses of the endpoint catalog.

pub mod add;
pub mod dag;
pub mod files;
