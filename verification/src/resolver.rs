//! Resolution: look a DID up on the ledger, and climb `controller` links
//! from a subject DID towards the recognized root, building the trust
//! chain.  The walk is iterative, keeps a visited set for cycle detection,
//! and is bounded by an explicit depth counter — an unbounded climb over
//! an adversarial document graph would be a denial-of-service risk.

use vstd::prelude::*;

use crate::document::str_eq;
use crate::document::Document;
use crate::document::DocumentMetadata;
use crate::document::DocumentMetadataView;
use crate::document::DocumentView;
use crate::errors::ChainError;
use crate::errors::ResolutionError;

verus! {

/// One hop of a resolved trust chain.
#[derive(Debug, PartialEq, Eq)]
pub struct ChainEntry {
    pub did: String,
    pub document: Document,
    pub metadata: DocumentMetadata,
}

#[verifier::ext_equal]
pub struct ChainEntryView {
    pub did: Seq<char>,
    pub document: DocumentView,
    pub metadata: DocumentMetadataView,
}

impl View for ChainEntry {
    type V = ChainEntryView;

    open spec fn view(&self) -> ChainEntryView {
        ChainEntryView { did: self.did@, document: self.document@, metadata: self.metadata@ }
    }
}

pub open spec fn chain_view(chain: Seq<ChainEntry>) -> Seq<ChainEntryView> {
    chain.map_values(|e: ChainEntry| e@)
}

/// What the ledger answers for one DID.
#[derive(Debug)]
pub enum LedgerRecord {
    /// The DID resolves to this document and metadata.
    Resolved { document: Document, metadata: DocumentMetadata },
    /// Resolution of the DID fails with this error.
    Failing { error: ResolutionError },
}

#[derive(Debug)]
pub struct LedgerEntry {
    pub did: String,
    pub record: LedgerRecord,
}

/// A snapshot of the ledger's resolution state: what each DID currently
/// resolves to.  A DID with no entry is not found.
#[derive(Debug)]
pub struct Ledger {
    pub entries: Vec<LedgerEntry>,
}

/// The entry the ledger holds for `did`: the latest one recorded.
pub open spec fn ledger_lookup(entries: Seq<LedgerEntry>, did: Seq<char>) -> Option<LedgerEntry>
    decreases entries.len(),
{
    if entries.len() == 0 {
        None
    } else if entries.last().did@ == did {
        Some(entries.last())
    } else {
        ledger_lookup(entries.drop_last(), did)
    }
}

impl Ledger {
    pub fn new() -> (l: Ledger)
        ensures
            l.entries@.len() == 0,
            forall|d: Seq<char>| ledger_lookup(l.entries@, d) is None,
    {
        Ledger { entries: Vec::new() }
    }

    /// Record that `did` resolves to the given document and metadata.
    pub fn add(&mut self, did: &str, document: Document, metadata: DocumentMetadata)
        ensures
            ({
                &&& ledger_lookup(final(self).entries@, did@) matches Some(e)
                &&& e.did@ == did@
                &&& e.record matches LedgerRecord::Resolved { document: d, metadata: m }
                &&& d@ == document@
                &&& m@ == metadata@
            }),
            forall|d: Seq<char>|
                d != did@ ==> ledger_lookup(final(self).entries@, d) == ledger_lookup(
                    old(self).entries@,
                    d,
                ),
    {
        let ghost previous = self.entries@;
        self.entries.push(
            LedgerEntry { did: did.to_owned(), record: LedgerRecord::Resolved { document, metadata } },
        );
        proof {
            assert(self.entries@.drop_last() =~= previous);
        }
    }

    /// Record that resolution of `did` currently fails with `error`.
    pub fn add_failure(&mut self, did: &str, error: ResolutionError)
        ensures
            ledger_lookup(final(self).entries@, did@) matches Some(e) && e.did@ == did@
                && e.record == (LedgerRecord::Failing { error }),
            forall|d: Seq<char>|
                d != did@ ==> ledger_lookup(final(self).entries@, d) == ledger_lookup(
                    old(self).entries@,
                    d,
                ),
    {
        let ghost previous = self.entries@;
        self.entries.push(LedgerEntry { did: did.to_owned(), record: LedgerRecord::Failing { error } });
        proof {
            assert(self.entries@.drop_last() =~= previous);
        }
    }

    /// Resolve one DID against the snapshot: its document and metadata,
    /// `NotFound` for an unknown DID, and the recorded failure otherwise.
    pub fn resolve(&self, did: &str) -> (r: Result<
        (Document, DocumentMetadata),
        ResolutionError,
    >)
        ensures
            ledger_lookup(self.entries@, did@) is None ==> r == Err::<
                (Document, DocumentMetadata),
                ResolutionError,
            >(ResolutionError::NotFound),
            ledger_lookup(self.entries@, did@) matches Some(e) ==> (e.record
                matches LedgerRecord::Resolved { document, metadata } ==> r matches Ok(pair)
                && pair.0@ == document@ && pair.1@ == metadata@),
            ledger_lookup(self.entries@, did@) matches Some(e) ==> (e.record
                matches LedgerRecord::Failing { error } ==> r == Err::<
                (Document, DocumentMetadata),
                ResolutionError,
            >(error)),
    {
        let mut i: usize = self.entries.len();
        proof {
            assert(self.entries@.take(i as int) =~= self.entries@);
        }
        while i > 0
            invariant
                i <= self.entries@.len(),
                ledger_lookup(self.entries@, did@) == ledger_lookup(
                    self.entries@.take(i as int),
                    did@,
                ),
            decreases i,
        {
            i -= 1;
            let entry = &self.entries[i];
            proof {
                assert(self.entries@.take(i as int + 1).last() == self.entries@[i as int]);
                assert(self.entries@.take(i as int + 1).drop_last() =~= self.entries@.take(
                    i as int,
                ));
            }
            if str_eq(entry.did.as_str(), did) {
                match &entry.record {
                    LedgerRecord::Resolved { document, metadata } => {
                        return Ok((document.duplicate(), metadata.duplicate()));
                    },
                    LedgerRecord::Failing { error } => {
                        return Err(*error);
                    },
                }
            }
        }
        Err(ResolutionError::NotFound)
    }
}

/// The outcome of a chain walk, at the specification level.
pub enum ChainVerdict {
    /// The walk reached the root; the chain runs from the subject to the
    /// root in this order.
    Chain(Seq<ChainEntryView>),
    /// This DID was about to be visited a second time.
    Cycle(Seq<char>),
    /// The depth bound was exhausted.
    TooDeep,
    /// This DID has no controller and is not the root.
    Unterminated(Seq<char>),
    /// Resolution of this DID failed.
    Unresolved(Seq<char>, ResolutionError),
}

/// The chain walk, mirrored as a function of the ledger snapshot: resolve
/// the current DID, append the entry, follow the `controller` link, and
/// stop at the root, at a repeated DID, at the depth bound, or at a
/// resolution failure.
pub open spec fn spec_walk(
    entries: Seq<LedgerEntry>,
    current: Seq<char>,
    acc: Seq<ChainEntryView>,
    root: Seq<char>,
    max_depth: nat,
) -> ChainVerdict
    decreases max_depth - acc.len(),
{
    if exists|i: int| 0 <= i < acc.len() && acc[i].did == current {
        ChainVerdict::Cycle(current)
    } else if acc.len() >= max_depth {
        ChainVerdict::TooDeep
    } else {
        match ledger_lookup(entries, current) {
            None => ChainVerdict::Unresolved(current, ResolutionError::NotFound),
            Some(e) => match e.record {
                LedgerRecord::Failing { error } => ChainVerdict::Unresolved(current, error),
                LedgerRecord::Resolved { document, metadata } => {
                    let entry = ChainEntryView {
                        did: current,
                        document: document@,
                        metadata: metadata@,
                    };
                    match document.controller {
                        None => if current == root {
                            ChainVerdict::Chain(acc.push(entry))
                        } else {
                            ChainVerdict::Unterminated(current)
                        },
                        Some(parent) => spec_walk(entries, parent@, acc.push(entry), root, max_depth),
                    }
                },
            },
        }
    }
}

/// The verdict an exec result stands for.
pub open spec fn verdict_of(r: Result<Vec<ChainEntry>, ChainError>) -> ChainVerdict {
    match r {
        Ok(chain) => ChainVerdict::Chain(chain_view(chain@)),
        Err(e) => match e {
            ChainError::CycleDetected { did } => ChainVerdict::Cycle(did@),
            ChainError::DepthExceeded => ChainVerdict::TooDeep,
            ChainError::UnterminatedChain { did } => ChainVerdict::Unterminated(did@),
            ChainError::Resolution { did, source } => ChainVerdict::Unresolved(did@, source),
        },
    }
}

/// A well-formed trust chain towards `root`: nonempty, each entry's
/// controller is the next entry's DID, the last entry is the root and has
/// no controller, and no DID repeats.
pub open spec fn chain_wf(c: Seq<ChainEntryView>, root: Seq<char>) -> bool {
    &&& c.len() >= 1
    &&& forall|i: int|
        0 <= i < c.len() - 1 ==> (#[trigger] c[i]).document.controller == Some(c[i + 1].did)
    &&& c.last().document.controller is None
    &&& c.last().did == root
    &&& forall|i: int, j: int| 0 <= i < j < c.len() ==> c[i].did != c[j].did
}

/// The chain resolver: the recognized root identity and the mandatory
/// depth bound, injected at construction so that test fixtures can use
/// alternate roots without touching the verification code.
#[derive(Debug)]
pub struct Resolver {
    pub root: String,
    pub max_depth: usize,
}

impl Resolver {
    pub fn new(root: &str, max_depth: usize) -> (r: Resolver)
        ensures
            r.root@ == root@,
            r.max_depth == max_depth,
    {
        Resolver { root: root.to_owned(), max_depth }
    }

    /// Resolve one DID; failures propagate unchanged.
    pub fn resolve(&self, ledger: &Ledger, did: &str) -> (r: Result<
        (Document, DocumentMetadata),
        ResolutionError,
    >)
        ensures
            ledger_lookup(ledger.entries@, did@) is None ==> r == Err::<
                (Document, DocumentMetadata),
                ResolutionError,
            >(ResolutionError::NotFound),
            ledger_lookup(ledger.entries@, did@) matches Some(e) ==> (e.record
                matches LedgerRecord::Resolved { document, metadata } ==> r matches Ok(pair)
                && pair.0@ == document@ && pair.1@ == metadata@),
            ledger_lookup(ledger.entries@, did@) matches Some(e) ==> (e.record
                matches LedgerRecord::Failing { error } ==> r == Err::<
                (Document, DocumentMetadata),
                ResolutionError,
            >(error)),
    {
        ledger.resolve(did)
    }

    /// Walk controller links from `did` towards the root, resolving and
    /// appending one entry per hop.  The result is exactly the verdict of
    /// the specification walk over the ledger snapshot, and an accepted
    /// chain is well formed: subject first, linked hop by hop, no DID
    /// revisited, the root last, within the depth bound.
    pub fn resolve_chain(&self, ledger: &Ledger, did: &str) -> (r: Result<
        Vec<ChainEntry>,
        ChainError,
    >)
        ensures
            verdict_of(r) == spec_walk(
                ledger.entries@,
                did@,
                Seq::<ChainEntryView>::empty(),
                self.root@,
                self.max_depth as nat,
            ),
            r matches Ok(chain) ==> chain_wf(chain_view(chain@), self.root@),
            r matches Ok(chain) ==> chain_view(chain@)[0].did == did@ && chain@.len()
                <= self.max_depth,
    {
        let mut chain: Vec<ChainEntry> = Vec::new();
        let mut current: String = did.to_owned();
        proof {
            assert(chain_view(chain@) =~= Seq::<ChainEntryView>::empty());
        }
        loop
            invariant
                chain@.len() <= self.max_depth,
                chain@.len() == 0 ==> current@ == did@,
                chain@.len() > 0 ==> chain_view(chain@)[0].did == did@,
                chain@.len() > 0 ==> chain_view(chain@).last().document.controller == Some(
                    current@,
                ),
                forall|i: int|
                    0 <= i < chain@.len() - 1 ==> (#[trigger] chain_view(chain@)[i]).document.controller
                        == Some(chain_view(chain@)[i + 1].did),
                forall|i: int, j: int|
                    0 <= i < j < chain@.len() ==> chain_view(chain@)[i].did != chain_view(
                        chain@,
                    )[j].did,
                spec_walk(
                    ledger.entries@,
                    current@,
                    chain_view(chain@),
                    self.root@,
                    self.max_depth as nat,
                ) == spec_walk(
                    ledger.entries@,
                    did@,
                    Seq::<ChainEntryView>::empty(),
                    self.root@,
                    self.max_depth as nat,
                ),
            decreases self.max_depth - chain@.len(),
        {
            let mut j: usize = 0;
            while j < chain.len()
                invariant
                    j <= chain@.len(),
                    forall|i: int| 0 <= i < j ==> chain_view(chain@)[i].did != current@,
                    spec_walk(
                        ledger.entries@,
                        current@,
                        chain_view(chain@),
                        self.root@,
                        self.max_depth as nat,
                    ) == spec_walk(
                        ledger.entries@,
                        did@,
                        Seq::<ChainEntryView>::empty(),
                        self.root@,
                        self.max_depth as nat,
                    ),
                decreases chain@.len() - j,
            {
                proof {
                    assert(chain_view(chain@)[j as int].did == chain@[j as int].did@);
                }
                if str_eq(chain[j].did.as_str(), current.as_str()) {
                    proof {
                        assert(chain_view(chain@)[j as int].did == current@);
                        assert(exists|i: int|
                            0 <= i < chain_view(chain@).len() && chain_view(chain@)[i].did
                                == current@);
                    }
                    return Err(ChainError::CycleDetected { did: current });
                }
                j += 1;
            }
            if chain.len() >= self.max_depth {
                return Err(ChainError::DepthExceeded);
            }
            let (document, metadata) = match ledger.resolve(current.as_str()) {
                Ok(pair) => pair,
                Err(source) => {
                    return Err(ChainError::Resolution { did: current, source });
                },
            };
            let parent: Option<String> = match &document.controller {
                Some(p) => Some(p.clone()),
                None => None,
            };
            let ghost previous = chain_view(chain@);
            chain.push(ChainEntry { did: current.clone(), document, metadata });
            proof {
                assert(chain_view(chain@) =~= previous.push(chain@.last()@));
            }
            match parent {
                None => {
                    if str_eq(current.as_str(), self.root.as_str()) {
                        return Ok(chain);
                    } else {
                        return Err(ChainError::UnterminatedChain { did: current });
                    }
                },
                Some(p) => {
                    current = p;
                },
            }
        }
    }
}

/// Idempotence of resolution: with no change of ledger state, two walks
/// from the same subject DID under the same root and depth bound yield
/// the same verdict — the same accepted chain in the same order, or the
/// same failure.
pub proof fn lemma_resolution_idempotent(
    entries: Seq<LedgerEntry>,
    did: Seq<char>,
    root: Seq<char>,
    max_depth: nat,
    first: ChainVerdict,
    second: ChainVerdict,
)
    requires
        first == spec_walk(entries, did, Seq::<ChainEntryView>::empty(), root, max_depth),
        second == spec_walk(entries, did, Seq::<ChainEntryView>::empty(), root, max_depth),
    ensures
        first == second,
{
}

} // verus!
