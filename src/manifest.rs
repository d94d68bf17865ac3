use vstd::prelude::*;

verus! {

/// The condition that narrows which blocks trigger a block handler.
///
/// Validation looks only at the kind of a filter, never at its parameters.
#[derive(Debug, Clone, PartialEq, Eq)]
pub enum BlockHandlerFilter {
    /// Fire only on blocks that hold a call to the data source's contract.
    Call,
    /// Any other filter kind, by the name it was declared with.
    Other(String),
}

impl BlockHandlerFilter {
    pub fn is_kind_call(&self) -> (r: bool)
        ensures
            r == (*self is Call),
    {
        match self {
            BlockHandlerFilter::Call => true,
            BlockHandlerFilter::Other(_) => false,
        }
    }
}

/// A 20-byte contract address.
#[derive(Debug, Clone, Copy, PartialEq, Eq)]
pub struct Address {
    pub bytes: [u8; 20],
}

/// The chain entity a data source observes.
#[derive(Debug, Clone, PartialEq, Eq)]
pub struct Source {
    /// The contract watched; `None` when the data source is not bound to one.
    pub address: Option<Address>,
    /// The name of the contract ABI the handlers decode with.
    pub abi: String,
}

/// A handler run for each matching event a contract emits.
#[derive(Debug, Clone, PartialEq, Eq)]
pub struct MappingEventHandler {
    pub event: String,
    pub handler: String,
}

/// A handler run for each matching call into a contract.
#[derive(Debug, Clone, PartialEq, Eq)]
pub struct MappingCallHandler {
    pub function: String,
    pub handler: String,
}

/// A handler run for blocks, for all of them or for those a filter selects.
#[derive(Debug, Clone, PartialEq, Eq)]
pub struct MappingBlockHandler {
    pub handler: String,
    pub filter: Option<BlockHandlerFilter>,
}

/// The handlers attached to a data source, each list in declaration order.
#[derive(Debug, Clone, PartialEq, Eq)]
pub struct Mapping {
    pub event_handlers: Vec<MappingEventHandler>,
    pub call_handlers: Vec<MappingCallHandler>,
    pub block_handlers: Vec<MappingBlockHandler>,
}

/// One observation unit of a manifest: a source and the handlers bound to it.
#[derive(Debug, Clone, PartialEq, Eq)]
pub struct DataSource {
    pub name: String,
    pub source: Source,
    pub mapping: Mapping,
}

/// A parsed subgraph manifest, the unit that validation accepts or rejects.
#[derive(Debug, Clone, PartialEq, Eq)]
pub struct SubgraphManifest {
    pub data_sources: Vec<DataSource>,
}

impl MappingBlockHandler {
    /// The handler declares no filter, or a filter of the `Call` kind.
    pub open spec fn filter_accepted(self) -> bool {
        match self.filter {
            None => true,
            Some(f) => f is Call,
        }
    }

    pub fn has_accepted_filter(&self) -> (r: bool)
        ensures
            r == self.filter_accepted(),
    {
        match &self.filter {
            None => true,
            Some(f) => f.is_kind_call(),
        }
    }
}

/// The number of block handlers in `hs` that declare no filter.
pub open spec fn unfiltered_count(hs: Seq<MappingBlockHandler>) -> nat
    decreases hs.len(),
{
    if hs.len() == 0 {
        0
    } else {
        unfiltered_count(hs.drop_last()) + if hs.last().filter is None {
            1nat
        } else {
            0nat
        }
    }
}

/// At most as many handlers lack a filter as there are handlers.
pub proof fn lemma_unfiltered_count_bound(hs: Seq<MappingBlockHandler>)
    ensures
        unfiltered_count(hs) <= hs.len(),
    decreases hs.len(),
{
    if hs.len() > 0 {
        lemma_unfiltered_count_bound(hs.drop_last());
    }
}

impl DataSource {
    /// The data source has call or block handlers but no contract address.
    pub open spec fn address_missing(self) -> bool {
        &&& self.source.address is None
        &&& (self.mapping.call_handlers@.len() > 0 || self.mapping.block_handlers@.len() > 0)
    }

    /// Some block handler of the data source declares a filter other than `Call`.
    pub open spec fn filter_rejected(self) -> bool {
        exists|j: int|
            0 <= j < self.mapping.block_handlers@.len()
                && !(#[trigger] self.mapping.block_handlers@[j]).filter_accepted()
    }

    /// The block-handler limit: more than one handler without a filter, or
    /// more than one block handler in all.
    ///
    /// The second count takes in every block handler, whatever its filter, so
    /// the limit comes down to a single block handler per data source (see
    /// `lemma_limit_counts_all_block_handlers`).
    pub open spec fn limit_exceeded(self) -> bool {
        unfiltered_count(self.mapping.block_handlers@) > 1 || self.mapping.block_handlers@.len() > 1
    }

    pub fn is_missing_required_address(&self) -> (r: bool)
        ensures
            r == self.address_missing(),
    {
        let no_source_address = self.source.address.is_none();
        let has_call_handlers = self.mapping.call_handlers.len() > 0;
        let has_block_handlers = self.mapping.block_handlers.len() > 0;
        no_source_address && (has_call_handlers || has_block_handlers)
    }

    pub fn has_invalid_block_filter(&self) -> (r: bool)
        ensures
            r == self.filter_rejected(),
    {
        let handlers = &self.mapping.block_handlers;
        let mut j: usize = 0;
        while j < handlers.len()
            invariant
                handlers@ == self.mapping.block_handlers@,
                j <= handlers@.len(),
                forall|k: int| 0 <= k < j ==> (#[trigger] handlers@[k]).filter_accepted(),
            decreases handlers@.len() - j,
        {
            if !handlers[j].has_accepted_filter() {
                assert(!handlers@[j as int].filter_accepted());
                return true;
            }
            j = j + 1;
        }
        false
    }

    pub fn has_too_many_block_handlers(&self) -> (r: bool)
        ensures
            r == self.limit_exceeded(),
    {
        let handlers = &self.mapping.block_handlers;
        let mut non_filtered_count: usize = 0;
        let mut total_count: usize = 0;
        let mut j: usize = 0;
        while j < handlers.len()
            invariant
                handlers@ == self.mapping.block_handlers@,
                j <= handlers@.len(),
                total_count == j,
                non_filtered_count == unfiltered_count(handlers@.take(j as int)),
                non_filtered_count <= j,
            decreases handlers@.len() - j,
        {
            proof {
                assert(handlers@.take(j + 1).drop_last() =~= handlers@.take(j as int));
            }
            if handlers[j].filter.is_none() {
                non_filtered_count = non_filtered_count + 1;
            }
            total_count = total_count + 1;
            j = j + 1;
        }
        proof {
            assert(handlers@.take(j as int) =~= handlers@);
        }
        non_filtered_count > 1 || total_count > 1
    }
}

/// The block-handler limit is exceeded exactly when a data source has more
/// than one block handler, filtered or not.
pub proof fn lemma_limit_counts_all_block_handlers(ds: DataSource)
    ensures
        ds.limit_exceeded() <==> ds.mapping.block_handlers@.len() > 1,
{
    lemma_unfiltered_count_bound(ds.mapping.block_handlers@);
}

} // verus!
