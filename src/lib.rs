//! Account linking between the Nordigen open-banking aggregation service and
//! a local Firefly-iii profile: token handling, bank selection, requisition
//! reuse and authorization-link retrieval, as verified decisions. Network,
//! console and configuration-file work is left to the caller.

pub mod link;
pub mod model;
pub mod requisition;
pub mod selection;
pub mod text;
pub mod workflow;
