use vstd::prelude::*;

use crate::error::{SubgraphManifestValidationError, SubgraphRegistrarError};
use crate::manifest::{lemma_limit_counts_all_block_handlers, DataSource, SubgraphManifest};

verus! {

impl SubgraphManifest {
    /// Some data source has call or block handlers but no contract address.
    pub open spec fn violates_address_rule(self) -> bool {
        exists|i: int|
            0 <= i < self.data_sources@.len() && (#[trigger] self.data_sources@[i]).address_missing()
    }

    /// Some block handler of some data source declares a filter other than `Call`.
    pub open spec fn violates_filter_rule(self) -> bool {
        exists|i: int|
            0 <= i < self.data_sources@.len() && (#[trigger] self.data_sources@[i]).filter_rejected()
    }

    /// Some data source exceeds the block-handler limit.
    pub open spec fn violates_limit_rule(self) -> bool {
        exists|i: int|
            0 <= i < self.data_sources@.len() && (#[trigger] self.data_sources@[i]).limit_exceeded()
    }

    pub fn has_data_source_missing_address(&self) -> (r: bool)
        ensures
            r == self.violates_address_rule(),
    {
        let mut i: usize = 0;
        while i < self.data_sources.len()
            invariant
                i <= self.data_sources@.len(),
                forall|k: int| 0 <= k < i ==> !(#[trigger] self.data_sources@[k]).address_missing(),
            decreases self.data_sources@.len() - i,
        {
            if self.data_sources[i].is_missing_required_address() {
                assert(self.data_sources@[i as int].address_missing());
                return true;
            }
            i = i + 1;
        }
        false
    }

    pub fn has_invalid_block_filter(&self) -> (r: bool)
        ensures
            r == self.violates_filter_rule(),
    {
        let mut i: usize = 0;
        while i < self.data_sources.len()
            invariant
                i <= self.data_sources@.len(),
                forall|k: int| 0 <= k < i ==> !(#[trigger] self.data_sources@[k]).filter_rejected(),
            decreases self.data_sources@.len() - i,
        {
            if self.data_sources[i].has_invalid_block_filter() {
                assert(self.data_sources@[i as int].filter_rejected());
                return true;
            }
            i = i + 1;
        }
        false
    }

    pub fn has_too_many_block_handlers(&self) -> (r: bool)
        ensures
            r == self.violates_limit_rule(),
    {
        let mut i: usize = 0;
        while i < self.data_sources.len()
            invariant
                i <= self.data_sources@.len(),
                forall|k: int| 0 <= k < i ==> !(#[trigger] self.data_sources@[k]).limit_exceeded(),
            decreases self.data_sources@.len() - i,
        {
            if self.data_sources[i].has_too_many_block_handlers() {
                assert(self.data_sources@[i as int].limit_exceeded());
                return true;
            }
            i = i + 1;
        }
        false
    }
}

/// The rule that `m` breaks first, taking the rules in their fixed order:
/// the address rule, then the filter rule, then the block-handler limit.
pub open spec fn first_violation(m: SubgraphManifest) -> Option<SubgraphManifestValidationError> {
    if m.violates_address_rule() {
        Some(SubgraphManifestValidationError::SourceAddressRequired)
    } else if m.violates_filter_rule() {
        Some(SubgraphManifestValidationError::InvalidBlockHandlerFilter)
    } else if m.violates_limit_rule() {
        Some(SubgraphManifestValidationError::DataSourceBlockHandlerLimitExceeded)
    } else {
        None
    }
}

/// What validating `m` returns: `m` itself when it breaks no rule, else the
/// first rule it breaks.
pub open spec fn validation_result(m: SubgraphManifest) -> Result<SubgraphManifest, SubgraphRegistrarError> {
    match first_violation(m) {
        None => Ok(m),
        Some(e) => Err(SubgraphRegistrarError::ManifestValidationError(e)),
    }
}

/// Checks `manifest` against the structural rules, in order, and stops at the
/// first one broken:
/// - a data source with call or block handlers must have a contract address;
/// - a block handler that declares a filter must declare a `Call` filter;
/// - a data source may have at most one block handler without a filter, and at
///   most one block handler in all.
///
/// An accepted manifest is handed back unchanged.
pub fn validate_manifest(manifest: SubgraphManifest) -> (r: Result<SubgraphManifest, SubgraphRegistrarError>)
    ensures
        r == validation_result(manifest),
{
    if manifest.has_data_source_missing_address() {
        return Err(
            SubgraphRegistrarError::ManifestValidationError(
                SubgraphManifestValidationError::SourceAddressRequired,
            ),
        );
    }
    if manifest.has_invalid_block_filter() {
        return Err(
            SubgraphRegistrarError::ManifestValidationError(
                SubgraphManifestValidationError::InvalidBlockHandlerFilter,
            ),
        );
    }
    if manifest.has_too_many_block_handlers() {
        return Err(
            SubgraphRegistrarError::ManifestValidationError(
                SubgraphManifestValidationError::DataSourceBlockHandlerLimitExceeded,
            ),
        );
    }
    Ok(manifest)
}

/// Validation is idempotent: a manifest that validation accepts comes back
/// unchanged, and validating it again accepts it again.
pub proof fn lemma_validation_idempotent(m: SubgraphManifest)
    ensures
        validation_result(m) matches Ok(a) ==> a == m && validation_result(a) == validation_result(m),
{
}

/// A data source with call or block handlers and no contract address makes
/// every manifest that holds it fail with `SourceAddressRequired`.
pub proof fn lemma_address_rule(m: SubgraphManifest, d: DataSource)
    requires
        m.data_sources@.contains(d),
        d.source.address is None,
        d.mapping.call_handlers@.len() > 0 || d.mapping.block_handlers@.len() > 0,
    ensures
        validation_result(m) == Err::<SubgraphManifest, SubgraphRegistrarError>(
            SubgraphRegistrarError::ManifestValidationError(
                SubgraphManifestValidationError::SourceAddressRequired,
            ),
        ),
{
    let i = choose|i: int| 0 <= i < m.data_sources@.len() && m.data_sources@[i] == d;
    assert(m.data_sources@[i].address_missing());
}

/// A data source with no contract address and no call or block handlers
/// never causes `SourceAddressRequired`: a manifest that holds it fails with
/// that error exactly when some other data source breaks the address rule.
pub proof fn lemma_address_rule_exemption(m: SubgraphManifest, i: int)
    requires
        0 <= i < m.data_sources@.len(),
        m.data_sources@[i].source.address is None,
        m.data_sources@[i].mapping.call_handlers@.len() == 0,
        m.data_sources@[i].mapping.block_handlers@.len() == 0,
    ensures
        !m.data_sources@[i].address_missing(),
        validation_result(m) == Err::<SubgraphManifest, SubgraphRegistrarError>(
            SubgraphRegistrarError::ManifestValidationError(
                SubgraphManifestValidationError::SourceAddressRequired,
            ),
        ) <==> exists|k: int|
            0 <= k < m.data_sources@.len() && k != i && (#[trigger] m.data_sources@[k]).address_missing(),
{
}

/// A block handler that declares a filter of a kind other than `Call` makes
/// a manifest fail with `InvalidBlockHandlerFilter`, unless the manifest
/// already breaks the address rule, which is checked first.
pub proof fn lemma_filter_rule(m: SubgraphManifest, i: int, j: int)
    requires
        0 <= i < m.data_sources@.len(),
        0 <= j < m.data_sources@[i].mapping.block_handlers@.len(),
        m.data_sources@[i].mapping.block_handlers@[j].filter matches Some(f) && f !is Call,
        !m.violates_address_rule(),
    ensures
        validation_result(m) == Err::<SubgraphManifest, SubgraphRegistrarError>(
            SubgraphRegistrarError::ManifestValidationError(
                SubgraphManifestValidationError::InvalidBlockHandlerFilter,
            ),
        ),
{
    assert(!m.data_sources@[i].mapping.block_handlers@[j].filter_accepted());
    assert(m.data_sources@[i].filter_rejected());
}

/// A manifest whose block handlers all declare no filter or a `Call` filter
/// never fails with `InvalidBlockHandlerFilter`.
pub proof fn lemma_accepted_filters_never_rejected(m: SubgraphManifest)
    requires
        forall|i: int, j: int|
            0 <= i < m.data_sources@.len() && 0 <= j < m.data_sources@[i].mapping.block_handlers@.len()
                ==> match (#[trigger] m.data_sources@[i].mapping.block_handlers@[j]).filter {
                None => true,
                Some(f) => f is Call,
            },
    ensures
        validation_result(m) != Err::<SubgraphManifest, SubgraphRegistrarError>(
            SubgraphRegistrarError::ManifestValidationError(
                SubgraphManifestValidationError::InvalidBlockHandlerFilter,
            ),
        ),
{
    assert forall|i: int| 0 <= i < m.data_sources@.len() implies !(
    #[trigger] m.data_sources@[i]).filter_rejected() by {
        assert forall|j: int| 0 <= j < m.data_sources@[i].mapping.block_handlers@.len() implies (
        #[trigger] m.data_sources@[i].mapping.block_handlers@[j]).filter_accepted() by {}
    }
}

/// A data source whose only block handler declares no filter passes both
/// block-handler rules.
pub proof fn lemma_single_unfiltered_block_handler_passes(d: DataSource)
    requires
        d.mapping.block_handlers@.len() == 1,
        d.mapping.block_handlers@[0].filter is None,
    ensures
        !d.filter_rejected(),
        !d.limit_exceeded(),
{
    lemma_limit_counts_all_block_handlers(d);
    assert(d.mapping.block_handlers@[0].filter_accepted());
}

/// A data source with two block handlers that declare no filter makes a
/// manifest fail with `DataSourceBlockHandlerLimitExceeded`, unless the
/// manifest already breaks one of the rules checked before the limit.
pub proof fn lemma_two_unfiltered_block_handlers_exceed(m: SubgraphManifest, i: int, j1: int, j2: int)
    requires
        0 <= i < m.data_sources@.len(),
        0 <= j1 < j2 < m.data_sources@[i].mapping.block_handlers@.len(),
        m.data_sources@[i].mapping.block_handlers@[j1].filter is None,
        m.data_sources@[i].mapping.block_handlers@[j2].filter is None,
        !m.violates_address_rule(),
        !m.violates_filter_rule(),
    ensures
        validation_result(m) == Err::<SubgraphManifest, SubgraphRegistrarError>(
            SubgraphRegistrarError::ManifestValidationError(
                SubgraphManifestValidationError::DataSourceBlockHandlerLimitExceeded,
            ),
        ),
{
    assert(m.data_sources@[i].limit_exceeded());
}

} // verus!
