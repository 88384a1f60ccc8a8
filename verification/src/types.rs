//! The data the relay reads from the two chains, and the settings it runs under.

use vstd::prelude::*;

verus! {

/// Identifier of the validator set in effect. It only ever grows.
pub type AuthoritySetId = u64;

/// A block of the source chain that consensus has finalized.
#[derive(Clone, Copy, Debug, PartialEq, Eq)]
pub struct FinalizedHeader {
    /// Position of the block in the chain.
    pub height: u64,
    /// Hash that names the block.
    pub hash: [u8; 32],
    /// The authority set whose votes finalized the block.
    pub authority_set: AuthoritySetId,
}

/// The proof that a header was finalized: the votes of the validators of
/// one authority set for one block. It proves nothing of any other block.
#[derive(Clone, Debug, PartialEq, Eq)]
pub struct Justification {
    /// Height of the block that the votes are for.
    pub height: u64,
    /// Hash of the block that the votes are for.
    pub hash: [u8; 32],
    /// The authority set whose validators voted.
    pub authority_set: AuthoritySetId,
    /// The signed votes, as the source chain encodes them.
    pub votes: Vec<u8>,
}

/// A finalized header as the source adapter presents it to the relay.
#[derive(Clone, Copy, Debug, PartialEq, Eq)]
pub struct SourceHeader {
    pub header: FinalizedHeader,
    /// Whether the source holds a justification for this header.
    pub has_justification: bool,
    /// Whether this header is the last one of its authority set, so that
    /// every later header is finalized by the next set.
    pub changes_authority_set: bool,
}

/// What the target chain has accepted so far, as read from the target.
#[derive(Clone, Copy, Debug, PartialEq, Eq)]
pub struct TargetChainState {
    /// The newest source header that the target has accepted.
    pub last_accepted: FinalizedHeader,
    /// The authority set that the target expects the next proof to come from.
    pub authority_set_id: AuthoritySetId,
}

/// Settings of the relay.
#[derive(Clone, Copy, Debug, PartialEq, Eq)]
pub struct RelayConfig {
    /// Whether the relay guard watches the target's runtime version.
    pub enable_version_guard: bool,
    /// Pause between two steps of a pipeline, in milliseconds.
    pub polling_interval_ms: u64,
    /// How many times a failed submission is tried again.
    pub max_retries: u32,
    /// Delay before the first retry, in milliseconds.
    pub backoff_base_ms: u64,
    /// Largest delay before any retry, in milliseconds.
    pub backoff_ceiling_ms: u64,
    /// How many authority-set changes one proof may span.
    pub max_set_transitions: u32,
    /// For how many source blocks after its origin an equivocation can
    /// still be reported.
    pub reporting_window: u64,
}

/// Whether two hashes are the same.
pub fn same_hash(a: &[u8; 32], b: &[u8; 32]) -> (same: bool)
    ensures
        same == (*a == *b),
{
    let mut i: usize = 0;
    while i < 32
        invariant
            0 <= i <= 32,
            forall|j: int| 0 <= j < i ==> a[j] == b[j],
        decreases 32 - i,
    {
        if a[i] != b[i] {
            return false;
        }
        i = i + 1;
    }
    assert(*a =~= *b);
    true
}

impl Justification {
    /// The justification is the one of `h`: it is for the block of that
    /// height and hash, and by the authority set that finalized it.
    pub open spec fn spec_justifies(&self, h: FinalizedHeader) -> bool {
        &&& self.height == h.height
        &&& self.hash == h.hash
        &&& self.authority_set == h.authority_set
    }

    /// Whether this is the justification of `h`.
    pub fn justifies(&self, h: &FinalizedHeader) -> (b: bool)
        ensures
            b == self.spec_justifies(*h),
    {
        self.height == h.height && self.authority_set == h.authority_set && same_hash(&self.hash, &h.hash)
    }
}

impl SourceHeader {
    /// The header as the relay sees it, given what the source answered
    /// when asked for its justification. A justification of another
    /// header counts as none.
    pub fn observed(header: FinalizedHeader, justification: Option<&Justification>, changes_authority_set: bool) -> (c: SourceHeader)
        ensures
            c.header == header,
            c.changes_authority_set == changes_authority_set,
            c.has_justification == (justification matches Some(j) && j.spec_justifies(header)),
    {
        let has_justification: bool = match justification {
            Some(j) => j.justifies(&header),
            None => false,
        };
        SourceHeader { header, has_justification, changes_authority_set }
    }
}

impl TargetChainState {
    /// The state of the target after a submission of `h` was settled: a
    /// header that is newer than the last accepted one replaces it, and
    /// the expected set moves on where the header closes its set; any
    /// other header changes nothing.
    pub open spec fn spec_advance(self, h: SourceHeader) -> TargetChainState {
        if h.header.height > self.last_accepted.height {
            TargetChainState {
                last_accepted: h.header,
                authority_set_id: if h.changes_authority_set && h.header.authority_set < u64::MAX {
                    (h.header.authority_set + 1) as u64
                } else {
                    h.header.authority_set
                },
            }
        } else {
            self
        }
    }

    /// The target state to expect once a submission of `h` has been settled.
    pub fn advance(&self, h: &SourceHeader) -> (next: TargetChainState)
        ensures
            next == self.spec_advance(*h),
    {
        if h.header.height > self.last_accepted.height {
            let set: u64 = if h.changes_authority_set && h.header.authority_set < u64::MAX {
                h.header.authority_set + 1
            } else {
                h.header.authority_set
            };
            TargetChainState { last_accepted: h.header, authority_set_id: set }
        } else {
            *self
        }
    }
}

/// Submitting the same header a second time leaves the target where the
/// first submission left it.
pub proof fn lemma_advance_idempotent(t: TargetChainState, h: SourceHeader)
    ensures
        t.spec_advance(h).spec_advance(h) == t.spec_advance(h),
{
}

/// The accepted height never goes down, whatever header is submitted,
/// and afterwards the target stands at that header or above it.
pub proof fn lemma_advance_monotonic(t: TargetChainState, h: SourceHeader)
    ensures
        t.spec_advance(h).last_accepted.height >= t.last_accepted.height,
        t.spec_advance(h).last_accepted.height >= h.header.height,
{
}

} // verus!
