use vstd::prelude::*;

verus! {

/// The structural rule of a manifest that validation found broken.
#[derive(Debug, Clone, Copy, PartialEq, Eq, Structural)]
pub enum SubgraphManifestValidationError {
    /// A data source with call or block handlers has no contract address.
    SourceAddressRequired,
    /// A block handler declares a filter of a kind other than `Call`.
    InvalidBlockHandlerFilter,
    /// A data source declares more block handlers than one.
    DataSourceBlockHandlerLimitExceeded,
}

/// Why a manifest could not be registered.
#[derive(Debug, Clone, Copy, PartialEq, Eq, Structural)]
pub enum SubgraphRegistrarError {
    ManifestValidationError(SubgraphManifestValidationError),
}

} // verus!
