//! The streaming traversal driver and its failure taxonomy.
//!
//! A [`CatStreamDriver`] is pull-based: the consumer asks [`CatStreamDriver::next_fetch`]
//! which block is needed, fetches it, and hands the bytes to
//! [`CatStreamDriver::on_block`] (or reports the fetch failure to
//! [`CatStreamDriver::on_fetch_failure`]). Each step performs at most one
//! block fetch on the consumer's side and yields at most one non-empty chunk,
//! so memory stays bounded by one block plus one chunk, and abandoning the
//! driver between steps causes no further fetches.

use vstd::prelude::*;

use cid::Cid;
use ipfs_unixfs::file::visit::FileVisit;
use ipfs_unixfs::file::FileReadFailed;

use crate::visit::{
    continue_returns, continue_step, continue_visit, render_loading, render_walking, root_returns,
    root_step, start_visit, DecodeOutcome,
};

verus! {

/// Half-open interval of file-level byte offsets requested by the caller;
/// absent means "whole file".
#[derive(Clone, Copy, Debug, PartialEq, Eq, Structural)]
pub struct ByteRange {
    pub start: u64,
    pub end: u64,
}

/// A failure while walking the UnixFS graph, attributed to one block.
#[derive(Debug)]
pub enum TraversalFailed {
    /// The block could not be fetched; carries the fetch layer's message.
    Loading(Cid, String),
    /// The block was fetched but could not be decoded or walked.
    Walking(Cid, FileReadFailed),
}

impl TraversalFailed {
    /// The identifier of the block this failure is attributed to.
    pub fn block_id(&self) -> (r: &Cid)
        ensures
            (match self {
                TraversalFailed::Loading(id, _) => r == id,
                TraversalFailed::Walking(id, _) => r == id,
            }),
    {
        match self {
            TraversalFailed::Loading(id, _) => id,
            TraversalFailed::Walking(id, _) => id,
        }
    }

    /// The fetch layer's message, when the block could not be fetched.
    pub fn loading_cause(&self) -> (r: Option<&String>)
        ensures
            (match self {
                TraversalFailed::Loading(_, cause) => r == Some(cause),
                TraversalFailed::Walking(_, _) => r is None,
            }),
    {
        match self {
            TraversalFailed::Loading(_, cause) => Some(cause),
            TraversalFailed::Walking(_, _) => None,
        }
    }

    /// The structured decode failure, when the block could not be walked.
    pub fn walking_cause(&self) -> (r: Option<&FileReadFailed>)
        ensures
            (match self {
                TraversalFailed::Loading(_, _) => r is None,
                TraversalFailed::Walking(_, cause) => r == Some(cause),
            }),
    {
        match self {
            TraversalFailed::Loading(_, _) => None,
            TraversalFailed::Walking(_, cause) => Some(cause),
        }
    }

    /// A human-readable message: a fixed template embedding the rendering of
    /// the implicated block identifier and, for a fetch failure, the cause
    /// verbatim.
    pub fn message(&self) -> (r: String)
        ensures
            (match self {
                TraversalFailed::Loading(_, cause) => exists|t: Seq<char>|
                    r@ == "loading of "@ + t + " failed: "@ + cause@,
                TraversalFailed::Walking(_, _) => exists|t: Seq<char>, u: Seq<char>|
                    r@ == "failed to walk "@ + t + ": "@ + u,
            }),
    {
        match self {
            TraversalFailed::Loading(id, cause) => render_loading(id, cause),
            TraversalFailed::Walking(id, cause) => render_walking(id, cause),
        }
    }
}

/// The three logical phases of a traversal.
pub enum Phase {
    /// Not yet started; the root block is needed next.
    Idle,
    /// Under way; a child block is needed next.
    Active,
    /// Terminal; no further work.
    Done,
}

enum VisitState {
    Idle,
    Active { visit: FileVisit, next: Cid },
    Done,
}

/// What one traversal step produced.
#[derive(Debug)]
pub enum StepOutcome {
    /// The block was consumed and more blocks remain; carries a chunk to
    /// emit, when the block contributed one.
    Advanced(Option<Vec<u8>>),
    /// The traversal is complete; carries the final chunk to emit, when the
    /// block contributed one.
    Finished(Option<Vec<u8>>),
    /// Terminal failure; the sequence ends after emitting it.
    Failed(TraversalFailed),
}

/// Holds when no chunk of the sequence is empty.
pub open spec fn all_non_empty(chunks: Seq<Seq<u8>>) -> bool {
    forall|i: int| 0 <= i < chunks.len() ==> #[trigger] chunks[i].len() > 0
}

proof fn lemma_push_non_empty(chunks: Seq<Seq<u8>>, c: Seq<u8>)
    requires
        all_non_empty(chunks),
        c.len() > 0,
    ensures
        all_non_empty(chunks.push(c)),
{
    assert forall|i: int| 0 <= i < chunks.push(c).len() implies #[trigger] chunks.push(c)[i].len()
        > 0 by {
        if i < chunks.len() {
            assert(chunks.push(c)[i] == chunks[i]);
        } else {
            assert(chunks.push(c)[i] == c);
        }
    }
}

/// The bytes of a chunk sequence, concatenated in emission order.
pub open spec fn concat_of(chunks: Seq<Seq<u8>>) -> Seq<u8>
    decreases chunks.len(),
{
    if chunks.len() == 0 {
        Seq::empty()
    } else {
        concat_of(chunks.drop_last()) + chunks.last()
    }
}

/// How one step's optional chunk extends the emitted-chunk history: pushed
/// exactly once when present (and then non-empty), untouched when absent; the
/// concatenated output grows by exactly the chunk's bytes — no byte
/// duplicated, none skipped.
pub open spec fn chunk_update(before: Seq<Seq<u8>>, after: Seq<Seq<u8>>, c: Option<Vec<u8>>) -> bool {
    match c {
        Some(v) => {
            &&& v@.len() > 0
            &&& after == before.push(v@)
            &&& concat_of(after) == concat_of(before) + v@
        },
        None => after == before,
    }
}

/// The optional chunk `c` carries exactly the bytes `chunk`, present if and
/// only if those bytes are non-empty.
pub open spec fn chunk_is(c: Option<Vec<u8>>, chunk: Seq<u8>) -> bool {
    match c {
        Some(v) => v@ == chunk && chunk.len() > 0,
        None => chunk.len() == 0,
    }
}

/// Law: emitting one more chunk extends the concatenated output by exactly
/// that chunk — no byte duplicated, none skipped, none reordered.
pub proof fn lemma_concat_push(chunks: Seq<Seq<u8>>, c: Seq<u8>)
    ensures
        concat_of(chunks.push(c)) == concat_of(chunks) + c,
{
    assert(chunks.push(c).drop_last() =~= chunks);
    assert(chunks.push(c).last() == c);
}

/// Drives one file traversal: alternates between naming the block it needs
/// and consuming the block's bytes, emitting the file's chunks in order.
pub struct CatStreamDriver {
    root: Cid,
    range: Option<ByteRange>,
    state: VisitState,
    emitted: Ghost<Seq<Seq<u8>>>,
    fault: Ghost<Option<TraversalFailed>>,
}

impl CatStreamDriver {
    /// The root identifier the traversal was started with.
    pub closed spec fn root_id(self) -> Cid {
        self.root
    }

    /// The byte range the traversal was started with; fixed thereafter.
    pub closed spec fn range_of(self) -> Option<ByteRange> {
        self.range
    }

    /// Which of the three logical phases the traversal is in.
    pub closed spec fn phase(self) -> Phase {
        match self.state {
            VisitState::Idle => Phase::Idle,
            VisitState::Active { .. } => Phase::Active,
            VisitState::Done => Phase::Done,
        }
    }

    /// The walker carrying the traversal's progress, while one is active.
    pub closed spec fn walker(self) -> Option<FileVisit> {
        match self.state {
            VisitState::Active { visit, next } => Some(visit),
            _ => None,
        }
    }

    /// The identifier of the block needed next; `None` once terminal.
    pub closed spec fn target(self) -> Option<Cid> {
        match self.state {
            VisitState::Idle => Some(self.root),
            VisitState::Active { visit, next } => Some(next),
            VisitState::Done => None,
        }
    }

    /// The chunks handed out so far, in emission order.
    pub closed spec fn chunks(self) -> Seq<Seq<u8>> {
        self.emitted@
    }

    /// The bytes handed out so far: the chunks, concatenated.
    pub open spec fn output(self) -> Seq<u8> {
        concat_of(self.chunks())
    }

    /// The terminal failure handed out, if one was.
    pub closed spec fn failure(self) -> Option<TraversalFailed> {
        self.fault@
    }

    /// Every driver satisfies this from construction on: a failure is only
    /// ever handed out at the end, no emitted chunk is empty, and nothing is
    /// emitted before the first block is consumed.
    pub open spec fn wf(self) -> bool {
        &&& (self.failure() is Some ==> self.phase() == Phase::Done)
        &&& all_non_empty(self.chunks())
        &&& (self.phase() == Phase::Idle ==> self.chunks().len() == 0 && self.failure() is None)
        &&& (self.phase() == Phase::Idle ==> self.target() == Some(self.root_id()))
        &&& ((self.phase() == Phase::Done) <==> (self.target() is None))
        &&& ((self.phase() == Phase::Active) <==> (self.walker() is Some))
    }

    /// Begins a traversal of the file rooted at `root`, restricted to `range`
    /// when one is given.
    pub fn new(root: Cid, range: Option<ByteRange>) -> (d: Self)
        ensures
            d.wf(),
            d.phase() == Phase::Idle,
            d.root_id() == root,
            d.range_of() == range,
            d.chunks().len() == 0,
            d.failure() is None,
    {
        CatStreamDriver {
            root,
            range,
            state: VisitState::Idle,
            emitted: Ghost(Seq::empty()),
            fault: Ghost(None),
        }
    }

    /// The one block the traversal needs next: the root while idle, the
    /// walker's first pending link while active, nothing once terminal. The
    /// driver fetches nothing itself; no call here, no fetch anywhere.
    pub fn next_fetch(&self) -> (r: Option<Cid>)
        ensures
            r == self.target(),
            (r is Some) <==> !(self.phase() is Done),
            self.phase() is Idle ==> r == Some(self.root_id()),
    {
        match &self.state {
            VisitState::Idle => Some(self.root.clone()),
            VisitState::Active { next, .. } => Some(next.clone()),
            VisitState::Done => None,
        }
    }

    /// Consumes one fetched block: decodes it, emits its chunk when it has a
    /// non-empty one, and either stays active, completes, or fails with a
    /// `Walking` failure attributed to `block_id`. The whole outcome is the
    /// decoding of the block's bytes: against the range while idle, against
    /// the active walker afterwards. The caller vouches, through the two named
    /// conditions, that the decoder returns on this block (see the module
    /// note on the decoder's aborts); no caller can test them.
    pub fn on_block(&mut self, block_id: Cid, data: &[u8]) -> (r: StepOutcome)
        requires
            old(self).wf(),
            !(old(self).phase() is Done),
            old(self).phase() is Idle ==> root_returns(data@, old(self).range_of()),
            (match old(self).walker() {
                Some(v) => continue_returns(v, data@),
                None => true,
            }),
        ensures
            final(self).wf(),
            final(self).root_id() == old(self).root_id(),
            final(self).range_of() == old(self).range_of(),
            (match r {
                StepOutcome::Advanced(c) => {
                    &&& final(self).phase() is Active
                    &&& final(self).failure() is None
                    &&& chunk_update(old(self).chunks(), final(self).chunks(), c)
                },
                StepOutcome::Finished(c) => {
                    &&& final(self).phase() is Done
                    &&& final(self).failure() is None
                    &&& chunk_update(old(self).chunks(), final(self).chunks(), c)
                },
                StepOutcome::Failed(e) => {
                    &&& final(self).phase() is Done
                    &&& final(self).chunks() == old(self).chunks()
                    &&& final(self).failure() == Some(e)
                    &&& (e matches TraversalFailed::Walking(id, _) && id == block_id)
                },
            }),
            old(self).phase() is Idle ==> (match root_step(data@, old(self).range_of()) {
                DecodeOutcome::Rejected => r is Failed,
                DecodeOutcome::Parsed { chunk, continues } => {
                    &&& continues ==> (r matches StepOutcome::Advanced(c) && chunk_is(c, chunk))
                    &&& !continues ==> (r matches StepOutcome::Finished(c) && chunk_is(c, chunk))
                },
            }),
            (match old(self).walker() {
                Some(v) => (match continue_step(v, data@) {
                    DecodeOutcome::Rejected => r is Failed,
                    DecodeOutcome::Parsed { chunk, continues } => {
                        &&& continues ==> (r matches StepOutcome::Advanced(c) && chunk_is(c, chunk))
                        &&& !continues ==> (r matches StepOutcome::Finished(c) && chunk_is(c, chunk))
                    },
                }),
                None => true,
            }),
    {
        let mut s = VisitState::Done;
        std::mem::swap(&mut self.state, &mut s);
        match s {
            VisitState::Idle => {
                match start_visit(data, self.range) {
                    Ok((chunk, cont)) => self.absorb(chunk, cont),
                    Err(cause) => self.fail(TraversalFailed::Walking(block_id, cause)),
                }
            },
            VisitState::Active { visit, next: _ } => {
                match continue_visit(visit, data) {
                    Ok((chunk, cont)) => self.absorb(chunk, cont),
                    Err(cause) => self.fail(TraversalFailed::Walking(block_id, cause)),
                }
            },
            VisitState::Done => vstd::pervasive::unreached(),
        }
    }

    /// Records that the block named by `next_fetch` could not be fetched:
    /// hands out the one terminal `Loading` failure, attributed to that
    /// block, and ends the traversal. No retry happens at this layer.
    pub fn on_fetch_failure(&mut self, cause: String) -> (r: TraversalFailed)
        requires
            old(self).wf(),
            !(old(self).phase() is Done),
        ensures
            final(self).wf(),
            final(self).phase() is Done,
            final(self).root_id() == old(self).root_id(),
            final(self).range_of() == old(self).range_of(),
            final(self).chunks() == old(self).chunks(),
            final(self).failure() == Some(r),
            (r matches TraversalFailed::Loading(id, c) && Some(id) == old(self).target() && c == cause),
    {
        let id = match &self.state {
            VisitState::Idle => self.root.clone(),
            VisitState::Active { next, .. } => next.clone(),
            VisitState::Done => vstd::pervasive::unreached(),
        };
        self.state = VisitState::Done;
        let f = TraversalFailed::Loading(id, cause);
        self.fault = Ghost(Some(f));
        f
    }

    /// Settles one successful decoding step: emits the chunk when non-empty
    /// and moves to the walker's next pending block, or completes.
    fn absorb(&mut self, chunk: Vec<u8>, cont: Option<(FileVisit, Cid)>) -> (r: StepOutcome)
        requires
            old(self).phase() is Done,
            old(self).failure() is None,
            all_non_empty(old(self).chunks()),
        ensures
            final(self).wf(),
            final(self).root_id() == old(self).root_id(),
            final(self).range_of() == old(self).range_of(),
            final(self).failure() is None,
            (match r {
                StepOutcome::Advanced(c) => {
                    &&& final(self).phase() is Active
                    &&& chunk_update(old(self).chunks(), final(self).chunks(), c)
                    &&& chunk_is(c, chunk@)
                    &&& cont is Some
                },
                StepOutcome::Finished(c) => {
                    &&& final(self).phase() is Done
                    &&& chunk_update(old(self).chunks(), final(self).chunks(), c)
                    &&& chunk_is(c, chunk@)
                    &&& cont is None
                },
                StepOutcome::Failed(_) => false,
            }),
    {
        let emitted: Option<Vec<u8>> = if chunk.len() > 0 {
            proof {
                lemma_push_non_empty(self.emitted@, chunk@);
                lemma_concat_push(self.emitted@, chunk@);
            }
            self.emitted = Ghost(self.emitted@.push(chunk@));
            Some(chunk)
        } else {
            None
        };
        match cont {
            Some((visit, next)) => {
                self.state = VisitState::Active { visit, next };
                StepOutcome::Advanced(emitted)
            },
            None => StepOutcome::Finished(emitted),
        }
    }

    /// Ends the traversal with the given terminal failure.
    fn fail(&mut self, f: TraversalFailed) -> (r: StepOutcome)
        requires
            old(self).phase() is Done,
            old(self).failure() is None,
            all_non_empty(old(self).chunks()),
        ensures
            final(self).wf(),
            final(self).phase() is Done,
            final(self).root_id() == old(self).root_id(),
            final(self).range_of() == old(self).range_of(),
            final(self).chunks() == old(self).chunks(),
            final(self).failure() == Some(f),
            r == StepOutcome::Failed(f),
    {
        self.fault = Ghost(Some(f));
        StepOutcome::Failed(f)
    }
}

/// Law: in a well-formed driver no emitted chunk is ever empty.
pub proof fn lemma_no_empty_chunks(d: CatStreamDriver)
    requires
        d.wf(),
    ensures
        all_non_empty(d.chunks()),
{
}

/// Law: a handed-out failure is terminal — the driver is done and names no
/// further block to fetch, so no item of any kind follows it.
pub proof fn lemma_failure_is_terminal(d: CatStreamDriver)
    requires
        d.wf(),
        d.failure() is Some,
    ensures
        d.phase() is Done,
        d.target() is None,
{
}

} // verus!
