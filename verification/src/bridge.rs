//! Resolution bridge: the session-scoped store behind the runtime's
//! dependency-resolution callback. It stages at most one image together with
//! its identity, serves an in-memory stream when a request matches that
//! identity exactly, rejects every other request as not found, and tracks
//! the streams it has served so they are released at teardown, not before.
//!
//! The callback may arrive on any thread the runtime owns, so the caller
//! holds the store behind a mutual-exclusion lock and keeps each locked
//! section to one of the short operations below.

use vstd::prelude::*;
use vstd::slice::slice_to_vec;
use crate::wide::str_eq;

verus! {

/// The synthetic dependency id served with a resolved stream: an
/// implementation-chosen stable sentinel, any nonzero value serves.
pub const PROVIDED_ASSEMBLY_ID: u64 = 800;

/// The status served for a request the store cannot satisfy: the numeric
/// code of a file-not-found condition.
pub const NOT_FOUND_STATUS: u32 = 0x80070002;

/// A staged image with its runtime-computed identity.
#[derive(Debug)]
pub struct StagedAssembly {
    /// The image bytes.
    pub buffer: Vec<u8>,
    /// The identity string the runtime computed for the image.
    pub identity: String,
}

/// A stream served to the runtime: its bytes, a synthetic dependency id and
/// a context value.
#[derive(Debug)]
pub struct ProvidedAssembly {
    /// The bytes of the in-memory stream.
    pub stream: Vec<u8>,
    /// The synthetic dependency id; always `PROVIDED_ASSEMBLY_ID`.
    pub assembly_id: u64,
    /// The context value; always zero.
    pub context: u64,
}

/// The protocol-level rejections of the bridge. These are expected negative
/// answers of the resolution protocol, not failures.
#[derive(Debug, Clone, Copy, PartialEq, Eq, Structural)]
pub enum ResolveError {
    /// The requested identity does not match the staged one, or nothing is
    /// staged.
    AssemblyNotRecognized,
    /// Module-level resolution is not supported; only whole images are
    /// served.
    ModuleNotSupported,
}

impl ResolveError {
    /// The numeric status the rejection is reported as: both rejections
    /// surface as the not-found status.
    pub fn status(&self) -> (r: u32)
        ensures
            r == NOT_FOUND_STATUS,
    {
        NOT_FOUND_STATUS
    }
}

/// What the store answers for a requested identity: the staged bytes when
/// the request matches the staged identity exactly, nothing otherwise.
pub open spec fn spec_resolve(
    staged: Option<(Seq<u8>, Seq<char>)>,
    identity: Seq<char>,
) -> Option<Seq<u8>> {
    match staged {
        Some((buffer, staged_identity)) => if staged_identity == identity {
            Some(buffer)
        } else {
            None
        },
        None => None,
    }
}

/// The session-scoped assembly store read by the resolution callback.
pub struct AssemblyStore {
    staged: Option<StagedAssembly>,
    pending_streams: Vec<Vec<u8>>,
}

impl AssemblyStore {
    /// The staged image and identity, if any.
    pub closed spec fn spec_staged(&self) -> Option<(Seq<u8>, Seq<char>)> {
        match self.staged {
            Some(ref s) => Some((s.buffer@, s.identity@)),
            None => None,
        }
    }

    /// The bytes of each stream served and not yet released, in order of
    /// creation.
    pub closed spec fn spec_streams(&self) -> Seq<Seq<u8>> {
        Seq::new(self.pending_streams@.len(), |k: int| self.pending_streams@[k]@)
    }

    /// An empty store: nothing staged, no pending streams.
    pub fn new() -> (r: Self)
        ensures
            r.spec_staged() is None,
            r.spec_streams() == Seq::<Seq<u8>>::empty(),
    {
        let r = AssemblyStore { staged: None, pending_streams: Vec::new() };
        proof {
            assert(r.spec_streams() =~= Seq::<Seq<u8>>::empty());
        }
        r
    }

    /// Stages an image and its identity, replacing whatever was staged. At
    /// most one image is staged at a time.
    pub fn set_current_assembly(&mut self, buffer: &[u8], identity: &str)
        ensures
            final(self).spec_staged() == Some((buffer@, identity@)),
            final(self).spec_streams() == old(self).spec_streams(),
    {
        let staged = StagedAssembly {
            buffer: slice_to_vec(buffer),
            identity: identity.to_owned(),
        };
        self.staged = Some(staged);
        proof {
            assert(final(self).spec_streams() =~= old(self).spec_streams());
        }
    }

    /// Clears the staged image and forgets the pending streams, whose
    /// underlying handles the caller releases in the same breath. Returns
    /// how many streams were pending.
    pub fn clear_current_assembly(&mut self) -> (released: usize)
        ensures
            final(self).spec_staged() is None,
            final(self).spec_streams() == Seq::<Seq<u8>>::empty(),
            released == old(self).spec_streams().len(),
    {
        self.staged = None;
        let released = self.pending_streams.len();
        self.pending_streams = Vec::new();
        proof {
            assert(final(self).spec_streams() =~= Seq::<Seq<u8>>::empty());
        }
        released
    }

    /// Serves a dependency-resolution request. When the requested identity
    /// matches the staged one exactly, answers a stream over the staged
    /// bytes with the stable nonzero dependency id, and keeps a record of
    /// the stream for release at teardown; every other request is rejected
    /// as not recognized and leaves the store unchanged.
    pub fn provide_assembly(&mut self, identity: &str) -> (r: Result<ProvidedAssembly, ResolveError>)
        ensures
            r is Ok <==> spec_resolve(old(self).spec_staged(), identity@) is Some,
            r matches Ok(p) ==> {
                &&& Some(p.stream@) == spec_resolve(old(self).spec_staged(), identity@)
                &&& p.assembly_id == PROVIDED_ASSEMBLY_ID
                &&& p.assembly_id != 0
                &&& p.context == 0
                &&& final(self).spec_streams() == old(self).spec_streams().push(p.stream@)
            },
            r matches Err(e) ==> {
                &&& e == ResolveError::AssemblyNotRecognized
                &&& final(self).spec_streams() == old(self).spec_streams()
            },
            final(self).spec_staged() == old(self).spec_staged(),
    {
        match &self.staged {
            Some(data) => {
                if str_eq(data.identity.as_str(), identity) {
                    let stream: Vec<u8> = slice_to_vec(data.buffer.as_slice());
                    let record: Vec<u8> = slice_to_vec(stream.as_slice());
                    self.pending_streams.push(record);
                    proof {
                        assert(final(self).spec_streams() =~= old(self).spec_streams().push(
                            stream@,
                        ));
                    }
                    Ok(
                        ProvidedAssembly {
                            stream,
                            assembly_id: PROVIDED_ASSEMBLY_ID,
                            context: 0,
                        },
                    )
                } else {
                    Err(ResolveError::AssemblyNotRecognized)
                }
            },
            None => Err(ResolveError::AssemblyNotRecognized),
        }
    }

    /// Rejects a module-level resolution request: only whole-image
    /// resolution is supported, so every such request is unsupported,
    /// whatever is staged.
    pub fn provide_module(&self) -> (r: ResolveError)
        ensures
            r == ResolveError::ModuleNotSupported,
    {
        ResolveError::ModuleNotSupported
    }
}

/// Given a staged image with identity A, a request for any identity B
/// different from A is answered "not found", whatever image is staged and
/// however many requests came before: the answer depends only on the staged
/// pair and the requested identity.
pub proof fn lemma_bridge_rejects_mismatch(
    buffer: Seq<u8>,
    staged_identity: Seq<char>,
    requested: Seq<char>,
)
    requires
        requested != staged_identity,
    ensures
        spec_resolve(Some((buffer, staged_identity)), requested) is None,
{
}

/// Nothing is served while no image is staged.
pub proof fn lemma_bridge_rejects_unstaged(requested: Seq<char>)
    ensures
        spec_resolve(None, requested) is None,
{
}

/// Given a staged image with identity A, a request for exactly A is served
/// a stream whose byte length equals the staged image's length — the bytes
/// are the image's own.
pub proof fn lemma_bridge_serves_staged(buffer: Seq<u8>, staged_identity: Seq<char>)
    ensures
        spec_resolve(Some((buffer, staged_identity)), staged_identity) == Some(buffer),
        spec_resolve(Some((buffer, staged_identity)), staged_identity) matches Some(stream)
            && stream.len() == buffer.len(),
{
}

} // verus!
