//! Synchronises container-registry pull credentials into a cluster's secret
//! store: decodes the registry's authorization token, builds the pull-secret
//! document, and drives the delete-then-create reconciliation across a list
//! of namespaces.

pub mod codec;
pub mod encoding;
pub mod error;
pub mod reconcile;
pub mod secret;
pub mod sync;
