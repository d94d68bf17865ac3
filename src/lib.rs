//! Structural validation of subgraph manifests.
//!
//! A manifest lists data sources; each data source names an optional
//! contract address and a mapping of call, block and event handlers. The
//! validator checks a fixed, ordered list of structural rules and either
//! hands the manifest back untouched or reports the first rule broken.

pub mod error;
pub mod manifest;
pub mod validation;

pub use error::{SubgraphManifestValidationError, SubgraphRegistrarError};
pub use manifest::{
    Address, BlockHandlerFilter, DataSource, Mapping, MappingBlockHandler, MappingCallHandler,
    MappingEventHandler, Source, SubgraphManifest,
};
pub use validation::validate_manifest;
