//! Boundary around the UnixFS DAG walker (`ipfs_unixfs`) and the content
//! identifier type (`cid`). Everything the driver knows about those crates it
//! knows through the declarations and wrappers in this module.
//!
//! A known limitation, inherited from the decoder: on three classes of input
//! it aborts (panics) instead of returning its failure value — on a leaf node
//! of file or raw type whose optional `filesize` field is missing; under a
//! byte range, on a link node whose in-range children all filter out while
//! nothing else is pending, which strands the walker without a pending link;
//! and, under a byte range, on a leaf that holds fewer bytes than the
//! file-offset range its parent declared for it, which sends a slice index
//! out of bounds. Every public entry of the decoder crate reaches the same
//! spots, its parsed form is crate-private (so no inspection of a block can
//! precede the call), and verified code has no way to intercept an abort. The
//! two decode wrappers therefore `require` the named conditions
//! [`root_returns`] and [`continue_returns`] — that the decoder returns on
//! the input — and the driver passes the same conditions on to its caller,
//! where the residual trust is assumed: no caller can test them, only vouch
//! for its blocks. Everywhere the decoder returns, the contracts hold.

use vstd::prelude::*;

use cid::Cid;
use ipfs_unixfs::file::visit::{FileVisit, IdleFileVisit};
use ipfs_unixfs::file::FileReadFailed;

use crate::cat::ByteRange;

verus! {

#[verifier::external_type_specification]
#[verifier::external_body]
#[verifier::reject_recursive_types(C)]
#[verifier::reject_recursive_types(H)]
pub struct ExCidGeneric<C, H>(cid::CidGeneric<C, H>)
    where
        C: Into<u64> + TryFrom<u64> + Copy,
        H: Into<u64> + TryFrom<u64> + Copy;

#[verifier::external_type_specification]
#[verifier::external_body]
pub struct ExCodec(cid::Codec);

#[verifier::external_type_specification]
#[verifier::external_body]
pub struct ExCode(multihash::Code);

#[verifier::external_type_specification]
#[verifier::external_body]
pub struct ExFileVisit(FileVisit);

#[verifier::external_type_specification]
#[verifier::external_body]
pub struct ExFileReadFailed(FileReadFailed);

/// Relies on the derived `Clone` of `cid::CidGeneric`, which copies the
/// identifier field for field.
pub assume_specification<C, H>[ <cid::CidGeneric<C, H> as Clone>::clone ](
    c: &cid::CidGeneric<C, H>,
) -> (r: cid::CidGeneric<C, H>)
    where
        C: Into<u64> + TryFrom<u64> + Copy + Clone,
        H: Into<u64> + TryFrom<u64> + Copy + Clone,
    ensures
        r == *c,
;

/// What decoding one block comes to: either the block is rejected as
/// malformed, or it yields the block's file bytes restricted to the requested
/// range together with whether further blocks remain to be visited.
pub enum DecodeOutcome {
    Rejected,
    Parsed { chunk: Seq<u8>, continues: bool },
}

/// Whether the decoder returns on starting a visit with this root block and
/// range, rather than aborting (the module note names the aborting inputs): a
/// pure function of the block bytes and the range alone. No caller can test
/// it; it makes the boundary's residual trust visible in the contracts.
pub uninterp spec fn root_returns(data: Seq<u8>, range: Option<ByteRange>) -> bool;

/// The result of starting a visit on a root block on which the decoder
/// returns: a pure function of the block bytes and the requested range alone,
/// too involved to write out here (it is the UnixFS block decoding).
pub uninterp spec fn root_step(data: Seq<u8>, range: Option<ByteRange>) -> DecodeOutcome;

/// Whether the decoder returns on feeding this block to this walker, rather
/// than aborting (see the module note): a pure function of the walker value
/// and the block bytes alone.
pub uninterp spec fn continue_returns(visit: FileVisit, data: Seq<u8>) -> bool;

/// The result of feeding one block to a walker on which the decoder returns:
/// a pure function of the walker value (which carries the range and the
/// progress so far) and the block bytes alone.
pub uninterp spec fn continue_step(visit: FileVisit, data: Seq<u8>) -> DecodeOutcome;

/// Relies on `ipfs_unixfs::file::visit::IdleFileVisit` (`default`,
/// `with_target_range` and `start`) to decode the root block, and on
/// `FileVisit::pending_links` for the identifier the walk needs next; the
/// whole outcome is a function of the block bytes and the range alone. The
/// first abort class of the module note lives in this call, hence the
/// `requires`; the other two cannot arise here (a fresh walker is returned
/// only with pending links, and the root's own bytes bound its slice).
#[verifier::external_body]
pub(crate) fn start_visit(data: &[u8], range: Option<ByteRange>) -> (r: Result<
    (Vec<u8>, Option<(FileVisit, Cid)>),
    FileReadFailed,
>)
    requires
        root_returns(data@, range),
    ensures
        (match r {
            Ok((chunk, cont)) => (match root_step(data@, range) {
                DecodeOutcome::Parsed { chunk: c, continues } => {
                    &&& chunk@ == c
                    &&& continues == (cont is Some)
                    &&& root_returns(data@, range)
                },
                DecodeOutcome::Rejected => false,
            }),
            Err(_) => root_step(data@, range) is Rejected && root_returns(data@, range),
        }),
{
    let mut visit = IdleFileVisit::default();
    if let Some(r) = range {
        visit = visit.with_target_range(r.start..r.end);
    }
    let (bytes, _, _, cont) = visit.start(data)?;
    let cont = cont.map(|v| {
        let n = v.pending_links().0.clone();
        (v, n)
    });
    Ok((bytes.to_vec(), cont))
}

/// Relies on `ipfs_unixfs::file::visit::FileVisit::continue_walk` to feed the
/// fetched block to the walker, and on `FileVisit::pending_links` for the
/// identifier the walk needs next when blocks remain; the whole outcome is a
/// function of the walker value and the block bytes alone. All three abort
/// classes of the module note live in this call, hence the `requires`. The
/// walker's own take-next step cannot abort: every walker handed to this call
/// was returned beside a successfully extracted pending link and is unchanged
/// since, so it still holds one.
#[verifier::external_body]
pub(crate) fn continue_visit(visit: FileVisit, data: &[u8]) -> (r: Result<
    (Vec<u8>, Option<(FileVisit, Cid)>),
    FileReadFailed,
>)
    requires
        continue_returns(visit, data@),
    ensures
        (match r {
            Ok((chunk, cont)) => (match continue_step(visit, data@) {
                DecodeOutcome::Parsed { chunk: c, continues } => {
                    &&& chunk@ == c
                    &&& continues == (cont is Some)
                    &&& continue_returns(visit, data@)
                },
                DecodeOutcome::Rejected => false,
            }),
            Err(_) => continue_step(visit, data@) is Rejected && continue_returns(visit, data@),
        }),
{
    let (bytes, cont) = visit.continue_walk(data, &mut None)?;
    let cont = cont.map(|v| {
        let n = v.pending_links().0.clone();
        (v, n)
    });
    Ok((bytes.to_vec(), cont))
}

/// Relies on the `Display` of `cid::Cid` (a pure textual encoding that
/// returns on every identifier): the message is the fixed template with the
/// identifier's rendering in the one open place and the cause verbatim.
#[verifier::external_body]
pub(crate) fn render_loading(id: &Cid, cause: &String) -> (r: String)
    ensures
        exists|t: Seq<char>| r@ == "loading of "@ + t + " failed: "@ + cause@,
{
    format!("loading of {} failed: {}", id, cause)
}

/// Relies on the `Display` of `cid::Cid` and of
/// `ipfs_unixfs::file::FileReadFailed` (both pure renderings that return on
/// every value): the message is the fixed template with the identifier's and
/// the cause's renderings in the two open places.
#[verifier::external_body]
pub(crate) fn render_walking(id: &Cid, cause: &FileReadFailed) -> (r: String)
    ensures
        exists|t: Seq<char>, u: Seq<char>| r@ == "failed to walk "@ + t + ": "@ + u,
{
    format!("failed to walk {}: {}", id, cause)
}

} // verus!
