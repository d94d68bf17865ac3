use subgraph_validation::{
    validate_manifest, Address, BlockHandlerFilter, DataSource, Mapping, MappingBlockHandler,
    MappingCallHandler, MappingEventHandler, Source, SubgraphManifest,
    SubgraphManifestValidationError, SubgraphRegistrarError,
};

fn address() -> Option<Address> {
    Some(Address { bytes: [0x22; 20] })
}

fn call_handler() -> MappingCallHandler {
    MappingCallHandler {
        function: "transfer(address,uint256)".to_string(),
        handler: "handleTransfer".to_string(),
    }
}

fn event_handler() -> MappingEventHandler {
    MappingEventHandler {
        event: "Transfer(address,address,uint256)".to_string(),
        handler: "handleTransferEvent".to_string(),
    }
}

fn block_handler(filter: Option<BlockHandlerFilter>) -> MappingBlockHandler {
    MappingBlockHandler { handler: "handleBlock".to_string(), filter }
}

fn other_filter() -> Option<BlockHandlerFilter> {
    Some(BlockHandlerFilter::Other("polling".to_string()))
}

fn data_source(
    address: Option<Address>,
    call_handlers: Vec<MappingCallHandler>,
    block_handlers: Vec<MappingBlockHandler>,
) -> DataSource {
    DataSource {
        name: "Token".to_string(),
        source: Source { address, abi: "ERC20".to_string() },
        mapping: Mapping { event_handlers: vec![event_handler()], call_handlers, block_handlers },
    }
}

fn manifest(data_sources: Vec<DataSource>) -> SubgraphManifest {
    SubgraphManifest { data_sources }
}

fn rejected(e: SubgraphManifestValidationError) -> Result<SubgraphManifest, SubgraphRegistrarError> {
    Err(SubgraphRegistrarError::ManifestValidationError(e))
}

#[test]
fn address_and_call_handler_is_accepted() {
    let m = manifest(vec![data_source(address(), vec![call_handler()], vec![])]);
    assert_eq!(validate_manifest(m.clone()), Ok(m));
}

#[test]
fn missing_address_with_call_handler_is_rejected() {
    let m = manifest(vec![data_source(None, vec![call_handler()], vec![])]);
    assert_eq!(
        validate_manifest(m),
        rejected(SubgraphManifestValidationError::SourceAddressRequired)
    );
}

#[test]
fn missing_address_with_block_handler_is_rejected() {
    let m = manifest(vec![data_source(None, vec![], vec![block_handler(None)])]);
    assert_eq!(
        validate_manifest(m),
        rejected(SubgraphManifestValidationError::SourceAddressRequired)
    );
}

#[test]
fn non_call_filter_is_rejected() {
    let m = manifest(vec![data_source(address(), vec![], vec![block_handler(other_filter())])]);
    assert_eq!(
        validate_manifest(m),
        rejected(SubgraphManifestValidationError::InvalidBlockHandlerFilter)
    );
}

#[test]
fn two_unfiltered_block_handlers_are_rejected() {
    let m = manifest(vec![data_source(
        address(),
        vec![],
        vec![block_handler(None), block_handler(None)],
    )]);
    assert_eq!(
        validate_manifest(m),
        rejected(SubgraphManifestValidationError::DataSourceBlockHandlerLimitExceeded)
    );
}

#[test]
fn one_bad_data_source_rejects_whole_manifest() {
    let good = data_source(address(), vec![call_handler()], vec![]);
    let bad = data_source(None, vec![call_handler()], vec![]);
    let m = manifest(vec![good, bad]);
    assert_eq!(
        validate_manifest(m),
        rejected(SubgraphManifestValidationError::SourceAddressRequired)
    );
}

#[test]
fn accepted_manifest_validates_again_unchanged() {
    let m = manifest(vec![
        data_source(address(), vec![call_handler()], vec![block_handler(None)]),
        data_source(None, vec![], vec![]),
    ]);
    let once = validate_manifest(m.clone()).unwrap();
    assert_eq!(once, m);
    let twice = validate_manifest(once.clone()).unwrap();
    assert_eq!(twice, once);
}

#[test]
fn address_less_source_without_handlers_is_exempt() {
    let m = manifest(vec![data_source(None, vec![], vec![])]);
    assert_eq!(validate_manifest(m.clone()), Ok(m));
}

#[test]
fn exempt_source_beside_offending_source_still_rejected() {
    let m = manifest(vec![
        data_source(None, vec![], vec![]),
        data_source(None, vec![], vec![block_handler(Some(BlockHandlerFilter::Call))]),
    ]);
    assert_eq!(
        validate_manifest(m),
        rejected(SubgraphManifestValidationError::SourceAddressRequired)
    );
}

#[test]
fn empty_manifest_is_accepted() {
    let m = manifest(vec![]);
    assert_eq!(validate_manifest(m.clone()), Ok(m));
}

#[test]
fn call_filter_is_accepted() {
    let m = manifest(vec![data_source(
        address(),
        vec![],
        vec![block_handler(Some(BlockHandlerFilter::Call))],
    )]);
    assert_eq!(validate_manifest(m.clone()), Ok(m));
}

#[test]
fn single_unfiltered_block_handler_is_accepted() {
    let m = manifest(vec![data_source(address(), vec![], vec![block_handler(None)])]);
    assert_eq!(validate_manifest(m.clone()), Ok(m));
}

#[test]
fn address_rule_is_checked_before_filter_rule() {
    let m = manifest(vec![
        data_source(address(), vec![], vec![block_handler(other_filter())]),
        data_source(None, vec![call_handler()], vec![]),
    ]);
    assert_eq!(
        validate_manifest(m),
        rejected(SubgraphManifestValidationError::SourceAddressRequired)
    );
}

#[test]
fn filter_rule_is_checked_before_limit() {
    let m = manifest(vec![
        data_source(address(), vec![], vec![block_handler(None), block_handler(None)]),
        data_source(address(), vec![], vec![block_handler(other_filter())]),
    ]);
    assert_eq!(
        validate_manifest(m),
        rejected(SubgraphManifestValidationError::InvalidBlockHandlerFilter)
    );
}

#[test]
fn non_call_filter_after_unfiltered_handler_is_rejected() {
    let m = manifest(vec![data_source(
        address(),
        vec![],
        vec![block_handler(None), block_handler(other_filter())],
    )]);
    assert_eq!(
        validate_manifest(m),
        rejected(SubgraphManifestValidationError::InvalidBlockHandlerFilter)
    );
}

// The block-handler limit counts every block handler: a second handler is
// rejected even when only one of them lacks a filter, or when both carry a
// `Call` filter. Counting only `Call`-filtered handlers would accept the first
// of these.
#[test]
fn unfiltered_and_call_filtered_handlers_exceed_limit() {
    let m = manifest(vec![data_source(
        address(),
        vec![],
        vec![block_handler(None), block_handler(Some(BlockHandlerFilter::Call))],
    )]);
    assert_eq!(
        validate_manifest(m),
        rejected(SubgraphManifestValidationError::DataSourceBlockHandlerLimitExceeded)
    );
}

#[test]
fn two_call_filtered_handlers_exceed_limit() {
    let m = manifest(vec![data_source(
        address(),
        vec![],
        vec![
            block_handler(Some(BlockHandlerFilter::Call)),
            block_handler(Some(BlockHandlerFilter::Call)),
        ],
    )]);
    assert_eq!(
        validate_manifest(m),
        rejected(SubgraphManifestValidationError::DataSourceBlockHandlerLimitExceeded)
    );
}

#[test]
fn limit_applies_per_data_source() {
    let m = manifest(vec![
        data_source(address(), vec![], vec![block_handler(None)]),
        data_source(address(), vec![call_handler()], vec![block_handler(None)]),
    ]);
    assert_eq!(validate_manifest(m.clone()), Ok(m));
}

#[test]
fn filter_kind_is_recognised() {
    assert!(BlockHandlerFilter::Call.is_kind_call());
    assert!(!BlockHandlerFilter::Other("call".to_string()).is_kind_call());
}

#[test]
fn data_source_checks_report_each_rule() {
    let no_address = data_source(None, vec![call_handler()], vec![]);
    assert!(no_address.is_missing_required_address());
    assert!(!data_source(None, vec![], vec![]).is_missing_required_address());

    let bad_filter = data_source(address(), vec![], vec![block_handler(other_filter())]);
    assert!(bad_filter.has_invalid_block_filter());
    assert!(!bad_filter.has_too_many_block_handlers());

    let two = data_source(address(), vec![], vec![block_handler(None), block_handler(None)]);
    assert!(!two.has_invalid_block_filter());
    assert!(two.has_too_many_block_handlers());
}

#[test]
fn manifest_checks_report_each_rule() {
    let m = manifest(vec![
        data_source(address(), vec![], vec![block_handler(None)]),
        data_source(address(), vec![], vec![block_handler(other_filter()), block_handler(None)]),
    ]);
    assert!(!m.has_data_source_missing_address());
    assert!(m.has_invalid_block_filter());
    assert!(m.has_too_many_block_handlers());
}
