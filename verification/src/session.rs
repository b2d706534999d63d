//! Session facade and domain manager: the lifecycle that validates an image,
//! discovers and starts the runtime, stages the image for the resolution
//! bridge, creates an execution context, invokes the entry point, captures
//! output, and tears everything down exactly once — even on failure.
//!
//! The foreign calls themselves happen outside this library. The session is
//! a state machine: `next_action` says which foreign step to perform, the
//! driver performs it and reports what happened through `step`, and the
//! machine decides what follows. Every decision — ordering, optional steps,
//! failure handling, teardown — is made here and verified.

use vstd::prelude::*;
use vstd::array::array_as_slice;
use vstd::slice::slice_to_vec;
use crate::error::ClrError;
use crate::guid::{guid_chars, uuid_string};
use crate::image::{spec_validate, validate_file};
use crate::reflect::{
    entry_point_form,
    spec_entry_point_form,
    EntryPointForm,
    EntryPointInvocation,
};
use crate::variant::{create_safe_array_args, utf16_all, SpecVariant};
use crate::version::{version_chars, RuntimeVersion};
use crate::wide::{encode_wide_nul, wide_nul};

verus! {

/// A source of image bytes: a path for an outside reader to load, or a
/// caller-owned buffer.
#[derive(Debug, Clone)]
pub enum ClrSource<'a> {
    /// A file path; reading it is the caller's business.
    File(&'a str),
    /// An in-memory buffer holding the image.
    Buffer(&'a [u8]),
}

/// An opaque token for a created execution context. The driver that created
/// the context chooses the token and keeps the real handle beside it.
#[derive(Debug, Clone, Copy, PartialEq, Eq, Structural)]
pub struct DomainContext {
    /// The driver's token for the context.
    pub token: u64,
}

/// Runtime-session state owned by the session facade: the image, its
/// computed identity, the requested version, the context naming choice and
/// the created context.
#[derive(Debug)]
pub struct RustClrRuntime {
    /// The image bytes.
    pub buffer: Vec<u8>,
    /// The identity the runtime computed for the image; empty until
    /// computed.
    pub identity_assembly: String,
    /// The requested runtime generation; the newest supported one when
    /// unset.
    pub runtime_version: Option<RuntimeVersion>,
    /// The caller-chosen context name; a generated identifier when unset.
    pub domain_name: Option<String>,
    /// The created execution context, until it is unloaded.
    pub app_domain: Option<DomainContext>,
}

/// What unloading does: the context is removed from the state and handed
/// out, once, for the caller to release; a second unload finds nothing.
pub open spec fn spec_unload(s: RustClrRuntime) -> (RustClrRuntime, Option<DomainContext>) {
    (RustClrRuntime { app_domain: None, ..s }, s.app_domain)
}

impl RustClrRuntime {
    /// Fresh runtime state over an image.
    pub fn new(buffer: Vec<u8>) -> (r: Self)
        ensures
            r.buffer == buffer,
            r.identity_assembly@ == Seq::<char>::empty(),
            r.runtime_version is None,
            r.domain_name is None,
            r.app_domain is None,
    {
        RustClrRuntime {
            buffer,
            identity_assembly: String::new(),
            runtime_version: None,
            domain_name: None,
            app_domain: None,
        }
    }

    /// The active execution context, or `NoDomainAvailable` when none has
    /// been created yet (or it was already unloaded).
    pub fn get_app_domain(&self) -> (r: Result<DomainContext, ClrError>)
        ensures
            r matches Ok(d) ==> self.app_domain == Some(d),
            r is Err <==> self.app_domain is None,
            r is Err ==> r == Err::<DomainContext, ClrError>(ClrError::NoDomainAvailable),
    {
        match self.app_domain {
            Some(d) => Ok(d),
            None => Err(ClrError::NoDomainAvailable),
        }
    }

    /// Releases the execution context exactly once: the first call hands the
    /// context out for the caller to unload; a second call is a no-op that
    /// hands out nothing and reports no error.
    pub fn unload_domain(&mut self) -> (r: Option<DomainContext>)
        ensures
            *final(self) == spec_unload(*old(self)).0,
            r == spec_unload(*old(self)).1,
    {
        let r = self.app_domain;
        self.app_domain = None;
        r
    }
}

/// Unloading is idempotent: after one unload, a second unload changes
/// nothing and hands out no context, so the context cannot be released
/// twice and the second call is no error.
pub proof fn lemma_unload_idempotent(s: RustClrRuntime)
    ensures
        spec_unload(spec_unload(s).0).0 == spec_unload(s).0,
        spec_unload(spec_unload(s).0).1 is None,
{
}

/// The externally visible session states.
#[derive(Debug, Clone, Copy, PartialEq, Eq, Structural)]
pub enum SessionState {
    /// Validated, before the execution context exists.
    Created,
    /// The execution context exists; the image is not yet running.
    Prepared,
    /// The entry point has been invoked; the session is running or winding
    /// down normally.
    Running,
    /// Terminal: the run finished and the session tore down.
    Completed,
    /// Terminal or winding down after an error; teardown still runs.
    Failed,
}

/// Where the session stands: each phase awaits the outcome of one foreign
/// step, named by `RustClr::next_action`.
#[derive(Debug, Clone, Copy, PartialEq, Eq, Structural)]
pub enum Phase {
    /// Awaiting runtime discovery: meta locator, version info, control
    /// surfaces.
    Locating,
    /// Awaiting the identity the runtime computes for the staged bytes.
    ComputingIdentity,
    /// Awaiting confirmation that the image is staged in the bridge store.
    Staging,
    /// Awaiting bridge registration and runtime start.
    StartingRuntime,
    /// Awaiting entropy for a generated context name, then context creation.
    CreatingDomain,
    /// Awaiting the image load, answered with the entry point's signature.
    LoadingAssembly,
    /// Awaiting the exit-neutralization patch.
    PatchingExit {
        /// The recognised entry-point shape, carried to invocation.
        form: EntryPointForm,
    },
    /// Awaiting output redirection.
    Redirecting {
        /// The recognised entry-point shape, carried to invocation.
        form: EntryPointForm,
    },
    /// Awaiting the entry-point invocation.
    Invoking {
        /// The recognised entry-point shape.
        form: EntryPointForm,
    },
    /// Awaiting the captured output text.
    Capturing,
    /// Awaiting the first garbage-collection pass.
    CollectingFirst,
    /// Awaiting the wait for pending finalizers.
    WaitingFinalizers,
    /// Awaiting the second garbage-collection pass.
    CollectingSecond,
    /// Awaiting the context unload.
    Unloading,
    /// Awaiting the staged-state clear and release of pending streams.
    ClearingStaged,
    /// Terminal: the result is ready to take.
    Finished,
}

/// What the driver reports back after performing an action.
#[derive(Debug)]
pub enum HostEvent {
    /// Discovery succeeded; says whether the runtime was already started
    /// in-process.
    RuntimeLocated {
        /// Whether the runtime was already started in-process.
        already_started: bool,
    },
    /// The process-wide meta locator is not available.
    MetaHostUnavailable {
        /// The failure text.
        detail: String,
    },
    /// No installed runtime matches the requested version tag.
    VersionUnavailable {
        /// The failure text.
        detail: String,
    },
    /// A runtime control surface could not be obtained.
    HostUnavailable {
        /// The failure text.
        detail: String,
    },
    /// The runtime computed the staged image's identity.
    IdentityComputed {
        /// The identity string.
        identity: String,
    },
    /// The image and identity are staged in the bridge store.
    Staged,
    /// The runtime started, with the bridge registered beforehand.
    RuntimeStarted,
    /// The runtime failed to start.
    StartFailed,
    /// Sixteen entropy bytes for a generated context name.
    Entropy {
        /// The entropy bytes.
        bytes: [u8; 16],
    },
    /// The execution context was created.
    DomainCreated {
        /// The driver's token for the context.
        context: DomainContext,
    },
    /// The image loaded; carries the entry point's canonical string
    /// representation.
    AssemblyLoaded {
        /// The entry point's canonical string representation.
        entry_signature: String,
    },
    /// The exit-neutralization patch is applied.
    Patched,
    /// A memory-protection step of the patch failed.
    PatchFailed {
        /// The failure text.
        message: String,
    },
    /// Standard output and error are redirected.
    Redirected,
    /// The entry point returned.
    Invoked,
    /// The captured output text.
    OutputCaptured {
        /// The captured text.
        text: String,
    },
    /// One garbage-collection pass completed.
    Collected,
    /// Pending finalizers have run.
    FinalizersWaited,
    /// The execution context is unloaded.
    DomainUnloaded,
    /// The staged state is cleared and the pending streams are released.
    Cleared,
    /// A foreign call failed with a status code.
    CallFailed {
        /// The name of the failed operation.
        operation: String,
        /// The numeric status it returned.
        status: i32,
    },
}

/// The foreign step the driver must perform next.
#[derive(Debug)]
pub enum HostAction {
    /// Discover the runtime matching the version tag and obtain its control
    /// surfaces.
    LocateRuntime {
        /// The zero-terminated version tag to request.
        version: Vec<u16>,
    },
    /// Compute the runtime identity of the image bytes through an in-memory
    /// stream.
    ComputeIdentity {
        /// The image bytes.
        buffer: Vec<u8>,
    },
    /// Stage the image and identity in the bridge store.
    StageAssembly {
        /// The image bytes.
        buffer: Vec<u8>,
        /// The identity to stage them under.
        identity: String,
    },
    /// Register the bridge as host control, then start the runtime.
    StartRuntime,
    /// Draw sixteen entropy bytes for a generated context name.
    DrawEntropy,
    /// Create the execution context under the given zero-terminated name.
    CreateDomain {
        /// The zero-terminated context name.
        name: Vec<u16>,
    },
    /// Load the staged image into the context by its identity.
    LoadAssembly {
        /// The identity to load by.
        identity: String,
    },
    /// Neutralize the managed process-termination routine.
    PatchExit,
    /// Redirect standard output and error into an in-memory sink.
    RedirectOutput,
    /// Invoke the entry point as planned.
    InvokeEntryPoint {
        /// The planned invocation: with the configured arguments or without
        /// any.
        invocation: EntryPointInvocation,
    },
    /// Retrieve the captured output text.
    CaptureOutput,
    /// Force one garbage-collection pass.
    CollectGarbage,
    /// Wait for pending finalizers.
    WaitForPendingFinalizers,
    /// Unload the execution context.
    UnloadDomain,
    /// Clear the staged state and release the pending streams.
    ClearStaged,
    /// Nothing is left to do; take the result.
    Finish,
}

/// The session facade: configuration, progression and outcome of one
/// load-run-capture-collect-unload lifecycle.
#[derive(Debug)]
pub struct RustClr {
    /// Image, identity, version and context state.
    pub runtime: RustClrRuntime,
    /// Whether output redirection is enabled.
    pub redirect_output: bool,
    /// Whether the process-termination routine is to be neutralized.
    pub patch_exit: bool,
    /// Arguments for the entry point, when configured.
    pub args: Option<Vec<String>>,
    /// Where the session stands.
    pub phase: Phase,
    /// Whether discovery found the runtime already started in-process.
    pub already_started: bool,
    /// Whether an image is currently staged in the bridge store.
    pub staged: bool,
    /// Entropy for a generated context name, once drawn.
    pub entropy: Option<[u8; 16]>,
    /// The captured output, once retrieved.
    pub output: Option<String>,
    /// The first error encountered, kept through teardown.
    pub pending_error: Option<ClrError>,
}

/// The runtime generation the session requests: the configured one, or the
/// newest supported generation when none was configured.
pub open spec fn spec_effective_version(s: RustClr) -> RuntimeVersion {
    match s.runtime.runtime_version {
        Some(v) => v,
        None => RuntimeVersion::V4,
    }
}

/// The context name the session uses: the configured name, or the GUID-style
/// rendering of the drawn entropy.
pub open spec fn spec_domain_label(s: RustClr) -> Seq<char> {
    match s.runtime.domain_name {
        Some(n) => n@,
        None => match s.entropy {
            Some(b) => guid_chars(b@),
            None => Seq::empty(),
        },
    }
}

/// How a failure redirects the session: the first error is kept, and the
/// teardown still due is scheduled — unload when a context exists, then
/// clearing the staged state, else straight to the end.
pub open spec fn spec_fail(s: RustClr, e: ClrError) -> RustClr {
    RustClr {
        pending_error: if s.pending_error is None {
            Some(e)
        } else {
            s.pending_error
        },
        phase: if s.runtime.app_domain is Some {
            Phase::Unloading
        } else if s.staged {
            Phase::ClearingStaged
        } else {
            Phase::Finished
        },
        ..s
    }
}

/// The transition relation of the session: what each event does in each
/// phase. An event that is not an answer to the phase's action changes
/// nothing; a terminal session absorbs every event.
pub open spec fn spec_step(s: RustClr, e: HostEvent) -> RustClr {
    match s.phase {
        Phase::Locating => match e {
            HostEvent::RuntimeLocated { already_started } => RustClr {
                already_started,
                phase: Phase::ComputingIdentity,
                ..s
            },
            HostEvent::MetaHostUnavailable { detail } => spec_fail(
                s,
                ClrError::MetaHostCreationError(detail),
            ),
            HostEvent::VersionUnavailable { detail } => spec_fail(
                s,
                ClrError::RuntimeInfoError(detail),
            ),
            HostEvent::HostUnavailable { detail } => spec_fail(
                s,
                ClrError::RuntimeHostError(detail),
            ),
            HostEvent::CallFailed { operation, status } => spec_fail(
                s,
                ClrError::ApiError(operation, status),
            ),
            _ => s,
        },
        Phase::ComputingIdentity => match e {
            HostEvent::IdentityComputed { identity } => RustClr {
                runtime: RustClrRuntime { identity_assembly: identity, ..s.runtime },
                phase: Phase::Staging,
                ..s
            },
            HostEvent::CallFailed { operation, status } => spec_fail(
                s,
                ClrError::ApiError(operation, status),
            ),
            _ => s,
        },
        Phase::Staging => match e {
            HostEvent::Staged => RustClr {
                staged: true,
                phase: if s.already_started {
                    Phase::CreatingDomain
                } else {
                    Phase::StartingRuntime
                },
                ..s
            },
            HostEvent::CallFailed { operation, status } => spec_fail(
                s,
                ClrError::ApiError(operation, status),
            ),
            _ => s,
        },
        Phase::StartingRuntime => match e {
            HostEvent::RuntimeStarted => RustClr { phase: Phase::CreatingDomain, ..s },
            HostEvent::StartFailed => spec_fail(s, ClrError::RuntimeStartError),
            HostEvent::CallFailed { operation, status } => spec_fail(
                s,
                ClrError::ApiError(operation, status),
            ),
            _ => s,
        },
        Phase::CreatingDomain => match e {
            HostEvent::Entropy { bytes } => RustClr { entropy: Some(bytes), ..s },
            HostEvent::DomainCreated { context } => RustClr {
                runtime: RustClrRuntime { app_domain: Some(context), ..s.runtime },
                phase: Phase::LoadingAssembly,
                ..s
            },
            HostEvent::CallFailed { operation, status } => spec_fail(
                s,
                ClrError::ApiError(operation, status),
            ),
            _ => s,
        },
        Phase::LoadingAssembly => match e {
            HostEvent::AssemblyLoaded { entry_signature } => match spec_entry_point_form(
                entry_signature@,
            ) {
                Some(form) => RustClr {
                    phase: if s.patch_exit {
                        Phase::PatchingExit { form }
                    } else if s.redirect_output {
                        Phase::Redirecting { form }
                    } else {
                        Phase::Invoking { form }
                    },
                    ..s
                },
                None => spec_fail(s, ClrError::MethodNotFound),
            },
            HostEvent::CallFailed { operation, status } => spec_fail(
                s,
                ClrError::ApiError(operation, status),
            ),
            _ => s,
        },
        Phase::PatchingExit { form } => match e {
            HostEvent::Patched => RustClr {
                phase: if s.redirect_output {
                    Phase::Redirecting { form }
                } else {
                    Phase::Invoking { form }
                },
                ..s
            },
            HostEvent::PatchFailed { message } => spec_fail(s, ClrError::Msg(message)),
            HostEvent::CallFailed { operation, status } => spec_fail(
                s,
                ClrError::ApiError(operation, status),
            ),
            _ => s,
        },
        Phase::Redirecting { form } => match e {
            HostEvent::Redirected => RustClr { phase: Phase::Invoking { form }, ..s },
            HostEvent::CallFailed { operation, status } => spec_fail(
                s,
                ClrError::ApiError(operation, status),
            ),
            _ => s,
        },
        Phase::Invoking { .. } => match e {
            HostEvent::Invoked => RustClr {
                phase: if s.redirect_output {
                    Phase::Capturing
                } else {
                    Phase::CollectingFirst
                },
                ..s
            },
            HostEvent::CallFailed { operation, status } => spec_fail(
                s,
                ClrError::ApiError(operation, status),
            ),
            _ => s,
        },
        Phase::Capturing => match e {
            HostEvent::OutputCaptured { text } => RustClr {
                output: Some(text),
                phase: Phase::CollectingFirst,
                ..s
            },
            HostEvent::CallFailed { operation, status } => spec_fail(
                s,
                ClrError::ApiError(operation, status),
            ),
            _ => s,
        },
        Phase::CollectingFirst => match e {
            HostEvent::Collected => RustClr { phase: Phase::WaitingFinalizers, ..s },
            HostEvent::CallFailed { operation, status } => spec_fail(
                s,
                ClrError::ApiError(operation, status),
            ),
            _ => s,
        },
        Phase::WaitingFinalizers => match e {
            HostEvent::FinalizersWaited => RustClr { phase: Phase::CollectingSecond, ..s },
            HostEvent::CallFailed { operation, status } => spec_fail(
                s,
                ClrError::ApiError(operation, status),
            ),
            _ => s,
        },
        Phase::CollectingSecond => match e {
            HostEvent::Collected => RustClr { phase: Phase::Unloading, ..s },
            HostEvent::CallFailed { operation, status } => spec_fail(
                s,
                ClrError::ApiError(operation, status),
            ),
            _ => s,
        },
        Phase::Unloading => match e {
            HostEvent::DomainUnloaded => RustClr {
                runtime: RustClrRuntime { app_domain: None, ..s.runtime },
                phase: Phase::ClearingStaged,
                ..s
            },
            HostEvent::CallFailed { operation, status } => RustClr {
                runtime: RustClrRuntime { app_domain: None, ..s.runtime },
                pending_error: if s.pending_error is None {
                    Some(ClrError::ApiError(operation, status))
                } else {
                    s.pending_error
                },
                phase: Phase::ClearingStaged,
                ..s
            },
            _ => s,
        },
        Phase::ClearingStaged => match e {
            HostEvent::Cleared => RustClr { staged: false, phase: Phase::Finished, ..s },
            _ => s,
        },
        Phase::Finished => s,
    }
}

/// The externally visible state of a session: failed as soon as an error is
/// pending, else created, prepared, running or completed by where the phase
/// stands.
pub open spec fn spec_session_state(s: RustClr) -> SessionState {
    if s.pending_error is Some {
        SessionState::Failed
    } else {
        match s.phase {
            Phase::Locating => SessionState::Created,
            Phase::ComputingIdentity => SessionState::Created,
            Phase::Staging => SessionState::Created,
            Phase::StartingRuntime => SessionState::Created,
            Phase::CreatingDomain => SessionState::Created,
            Phase::LoadingAssembly => SessionState::Prepared,
            Phase::PatchingExit { .. } => SessionState::Prepared,
            Phase::Redirecting { .. } => SessionState::Prepared,
            Phase::Invoking { .. } => SessionState::Running,
            Phase::Capturing => SessionState::Running,
            Phase::CollectingFirst => SessionState::Running,
            Phase::WaitingFinalizers => SessionState::Running,
            Phase::CollectingSecond => SessionState::Running,
            Phase::Unloading => SessionState::Running,
            Phase::ClearingStaged => SessionState::Running,
            Phase::Finished => SessionState::Completed,
        }
    }
}

/// Copies a vector of strings.
fn clone_strings(v: &Vec<String>) -> (r: Vec<String>)
    ensures
        r@ == v@,
{
    let mut r: Vec<String> = Vec::new();
    let n = v.len();
    let mut i: usize = 0;
    while i < n
        invariant
            i <= n,
            n == v@.len(),
            r@ == v@.take(i as int),
        decreases n - i,
    {
        r.push(v[i].clone());
        proof {
            assert(v@.take(i as int).push(v@[i as int]) =~= v@.take(i + 1 as int));
        }
        i += 1;
    }
    proof {
        assert(v@.take(n as int) =~= v@);
    }
    r
}

impl RustClr {
    /// Starts a session over an image: validates the buffer and, when it is
    /// a hostable managed executable, yields a session in its initial state
    /// with every option off. Fails with exactly the validator's error
    /// otherwise.
    pub fn new(buffer: &[u8]) -> (r: Result<RustClr, ClrError>)
        ensures
            r is Ok <==> spec_validate(buffer@) is Ok,
            spec_validate(buffer@) matches Err(e) ==> r == Err::<RustClr, ClrError>(e),
            r matches Ok(c) ==> {
                &&& c.runtime.buffer@ == buffer@
                &&& c.runtime.identity_assembly@ == Seq::<char>::empty()
                &&& c.runtime.runtime_version is None
                &&& c.runtime.domain_name is None
                &&& c.runtime.app_domain is None
                &&& !c.redirect_output
                &&& !c.patch_exit
                &&& c.args is None
                &&& c.phase is Locating
                &&& !c.already_started
                &&& !c.staged
                &&& c.entropy is None
                &&& c.output is None
                &&& c.pending_error is None
                &&& teardown_complete(c)
            },
    {
        match validate_file(buffer) {
            Ok(()) => Ok(
                RustClr {
                    runtime: RustClrRuntime::new(slice_to_vec(buffer)),
                    redirect_output: false,
                    patch_exit: false,
                    args: None,
                    phase: Phase::Locating,
                    already_started: false,
                    staged: false,
                    entropy: None,
                    output: None,
                    pending_error: None,
                },
            ),
            Err(e) => Err(e),
        }
    }

    /// Chooses the runtime generation to request.
    pub fn with_runtime_version(self, version: RuntimeVersion) -> (r: Self)
        ensures
            r == (RustClr {
                runtime: RustClrRuntime { runtime_version: Some(version), ..self.runtime },
                ..self
            }),
    {
        RustClr {
            runtime: RustClrRuntime { runtime_version: Some(version), ..self.runtime },
            ..self
        }
    }

    /// Names the execution context; without this a GUID-style name is
    /// generated.
    pub fn with_domain(self, domain_name: &str) -> (r: Self)
        ensures
            r.runtime.domain_name matches Some(n) && n@ == domain_name@,
            (RustClr { runtime: RustClrRuntime { domain_name: None, ..r.runtime }, ..r }) == (
            RustClr { runtime: RustClrRuntime { domain_name: None, ..self.runtime }, ..self }),
    {
        RustClr {
            runtime: RustClrRuntime {
                domain_name: Some(domain_name.to_owned()),
                ..self.runtime
            },
            ..self
        }
    }

    /// Configures the arguments handed to a string-array entry point.
    pub fn with_args(self, args: Vec<&str>) -> (r: Self)
        ensures
            r.args matches Some(v) && v@.len() == args@.len() && (forall|k: int|
                0 <= k < args@.len() ==> #[trigger] v@[k]@ == args@[k]@),
            (RustClr { args: None, ..r }) == (RustClr { args: None, ..self }),
    {
        let mut owned: Vec<String> = Vec::new();
        let n = args.len();
        let mut i: usize = 0;
        while i < n
            invariant
                i <= n,
                n == args@.len(),
                owned@.len() == i,
                forall|k: int| 0 <= k < i ==> #[trigger] owned@[k]@ == args@[k]@,
            decreases n - i,
        {
            owned.push(args[i].to_owned());
            i += 1;
        }
        RustClr { args: Some(owned), ..self }
    }

    /// Enables output redirection and capture.
    pub fn with_output(self) -> (r: Self)
        ensures
            r == (RustClr { redirect_output: true, ..self }),
    {
        RustClr { redirect_output: true, ..self }
    }

    /// Enables neutralization of the managed process-termination routine.
    pub fn with_patch_exit(self) -> (r: Self)
        ensures
            r == (RustClr { patch_exit: true, ..self }),
    {
        RustClr { patch_exit: true, ..self }
    }

    /// The externally visible session state.
    pub fn state(&self) -> (r: SessionState)
        ensures
            r == spec_session_state(*self),
    {
        if self.pending_error.is_some() {
            SessionState::Failed
        } else {
            match self.phase {
                Phase::Locating => SessionState::Created,
                Phase::ComputingIdentity => SessionState::Created,
                Phase::Staging => SessionState::Created,
                Phase::StartingRuntime => SessionState::Created,
                Phase::CreatingDomain => SessionState::Created,
                Phase::LoadingAssembly => SessionState::Prepared,
                Phase::PatchingExit { .. } => SessionState::Prepared,
                Phase::Redirecting { .. } => SessionState::Prepared,
                Phase::Invoking { .. } => SessionState::Running,
                Phase::Capturing => SessionState::Running,
                Phase::CollectingFirst => SessionState::Running,
                Phase::WaitingFinalizers => SessionState::Running,
                Phase::CollectingSecond => SessionState::Running,
                Phase::Unloading => SessionState::Running,
                Phase::ClearingStaged => SessionState::Running,
                Phase::Finished => SessionState::Completed,
            }
        }
    }

    /// The foreign step the driver must perform now. The session does not
    /// change; the driver reports the outcome through `step`.
    pub fn next_action(&self) -> (r: HostAction)
        ensures
            self.phase is Locating ==> (r matches HostAction::LocateRuntime { version }
                && version@ == wide_nul(version_chars(spec_effective_version(*self)))),
            self.phase is ComputingIdentity ==> (r matches HostAction::ComputeIdentity { buffer }
                && buffer@ == self.runtime.buffer@),
            self.phase is Staging ==> (r matches HostAction::StageAssembly { buffer, identity }
                && buffer@ == self.runtime.buffer@ && identity@
                == self.runtime.identity_assembly@),
            self.phase is StartingRuntime ==> r is StartRuntime,
            self.phase is CreatingDomain && self.runtime.domain_name is None && self.entropy
                is None ==> r is DrawEntropy,
            self.phase is CreatingDomain && !(self.runtime.domain_name is None && self.entropy
                is None) ==> (r matches HostAction::CreateDomain { name } && name@ == wide_nul(
                spec_domain_label(*self),
            )),
            self.phase is LoadingAssembly ==> (r matches HostAction::LoadAssembly { identity }
                && identity@ == self.runtime.identity_assembly@),
            self.phase matches Phase::PatchingExit { .. } ==> r is PatchExit,
            self.phase matches Phase::Redirecting { .. } ==> r is RedirectOutput,
            (self.phase matches Phase::Invoking { form } && form is NoArgs) ==> (r matches
                HostAction::InvokeEntryPoint { invocation } && invocation is WithoutArgs),
            (self.phase matches Phase::Invoking { form } && form is StringArray) ==> (r matches
                HostAction::InvokeEntryPoint { invocation } && invocation matches
                EntryPointInvocation::WithArgs(a) && a@ == seq![
                SpecVariant::StrArray(
                    utf16_all(crate::reflect::spec_configured_args(self.args)),
                ),
            ]),
            self.phase is Capturing ==> r is CaptureOutput,
            self.phase is CollectingFirst ==> r is CollectGarbage,
            self.phase is CollectingSecond ==> r is CollectGarbage,
            self.phase is WaitingFinalizers ==> r is WaitForPendingFinalizers,
            self.phase is Unloading ==> r is UnloadDomain,
            self.phase is ClearingStaged ==> r is ClearStaged,
            self.phase is Finished ==> r is Finish,
    {
        match self.phase {
            Phase::Locating => {
                let v = match self.runtime.runtime_version {
                    Some(v) => v,
                    None => RuntimeVersion::V4,
                };
                HostAction::LocateRuntime { version: v.to_vec() }
            },
            Phase::ComputingIdentity => HostAction::ComputeIdentity {
                buffer: slice_to_vec(self.runtime.buffer.as_slice()),
            },
            Phase::Staging => HostAction::StageAssembly {
                buffer: slice_to_vec(self.runtime.buffer.as_slice()),
                identity: self.runtime.identity_assembly.clone(),
            },
            Phase::StartingRuntime => HostAction::StartRuntime,
            Phase::CreatingDomain => match &self.runtime.domain_name {
                Some(n) => HostAction::CreateDomain { name: encode_wide_nul(n.as_str()) },
                None => match &self.entropy {
                    Some(b) => {
                        let label = uuid_string(array_as_slice(b));
                        HostAction::CreateDomain { name: encode_wide_nul(label.as_str()) }
                    },
                    None => HostAction::DrawEntropy,
                },
            },
            Phase::LoadingAssembly => HostAction::LoadAssembly {
                identity: self.runtime.identity_assembly.clone(),
            },
            Phase::PatchingExit { .. } => HostAction::PatchExit,
            Phase::Redirecting { .. } => HostAction::RedirectOutput,
            Phase::Invoking { form } => match form {
                EntryPointForm::NoArgs => HostAction::InvokeEntryPoint {
                    invocation: EntryPointInvocation::WithoutArgs,
                },
                EntryPointForm::StringArray => {
                    let configured = match &self.args {
                        Some(v) => clone_strings(v),
                        None => Vec::new(),
                    };
                    proof {
                        assert(utf16_all(Seq::<String>::empty()) =~= Seq::<Seq<u16>>::empty());
                        assert(utf16_all(configured@) =~= utf16_all(
                            crate::reflect::spec_configured_args(self.args),
                        ));
                    }
                    HostAction::InvokeEntryPoint {
                        invocation: EntryPointInvocation::WithArgs(
                            create_safe_array_args(configured),
                        ),
                    }
                },
            },
            Phase::Capturing => HostAction::CaptureOutput,
            Phase::CollectingFirst => HostAction::CollectGarbage,
            Phase::WaitingFinalizers => HostAction::WaitForPendingFinalizers,
            Phase::CollectingSecond => HostAction::CollectGarbage,
            Phase::Unloading => HostAction::UnloadDomain,
            Phase::ClearingStaged => HostAction::ClearStaged,
            Phase::Finished => HostAction::Finish,
        }
    }

    /// Records a failure: the first error is kept, and the teardown still
    /// due is scheduled.
    fn fail(&mut self, e: ClrError)
        ensures
            *final(self) == spec_fail(*old(self), e),
    {
        if self.pending_error.is_none() {
            self.pending_error = Some(e);
        }
        if self.runtime.app_domain.is_some() {
            self.phase = Phase::Unloading;
        } else if self.staged {
            self.phase = Phase::ClearingStaged;
        } else {
            self.phase = Phase::Finished;
        }
    }

    /// Advances the session by the outcome the driver reports; the resulting
    /// session is exactly what the transition relation says.
    pub fn step(&mut self, event: HostEvent)
        ensures
            *final(self) == spec_step(*old(self), event),
    {
        let ph = self.phase;
        match ph {
            Phase::Locating => match event {
                HostEvent::RuntimeLocated { already_started } => {
                    self.already_started = already_started;
                    self.phase = Phase::ComputingIdentity;
                },
                HostEvent::MetaHostUnavailable { detail } => self.fail(
                    ClrError::MetaHostCreationError(detail),
                ),
                HostEvent::VersionUnavailable { detail } => self.fail(
                    ClrError::RuntimeInfoError(detail),
                ),
                HostEvent::HostUnavailable { detail } => self.fail(
                    ClrError::RuntimeHostError(detail),
                ),
                HostEvent::CallFailed { operation, status } => self.fail(
                    ClrError::ApiError(operation, status),
                ),
                _ => {},
            },
            Phase::ComputingIdentity => match event {
                HostEvent::IdentityComputed { identity } => {
                    self.runtime.identity_assembly = identity;
                    self.phase = Phase::Staging;
                },
                HostEvent::CallFailed { operation, status } => self.fail(
                    ClrError::ApiError(operation, status),
                ),
                _ => {},
            },
            Phase::Staging => match event {
                HostEvent::Staged => {
                    self.staged = true;
                    self.phase = if self.already_started {
                        Phase::CreatingDomain
                    } else {
                        Phase::StartingRuntime
                    };
                },
                HostEvent::CallFailed { operation, status } => self.fail(
                    ClrError::ApiError(operation, status),
                ),
                _ => {},
            },
            Phase::StartingRuntime => match event {
                HostEvent::RuntimeStarted => {
                    self.phase = Phase::CreatingDomain;
                },
                HostEvent::StartFailed => self.fail(ClrError::RuntimeStartError),
                HostEvent::CallFailed { operation, status } => self.fail(
                    ClrError::ApiError(operation, status),
                ),
                _ => {},
            },
            Phase::CreatingDomain => match event {
                HostEvent::Entropy { bytes } => {
                    self.entropy = Some(bytes);
                },
                HostEvent::DomainCreated { context } => {
                    self.runtime.app_domain = Some(context);
                    self.phase = Phase::LoadingAssembly;
                },
                HostEvent::CallFailed { operation, status } => self.fail(
                    ClrError::ApiError(operation, status),
                ),
                _ => {},
            },
            Phase::LoadingAssembly => match event {
                HostEvent::AssemblyLoaded { entry_signature } => {
                    match entry_point_form(entry_signature.as_str()) {
                        Some(form) => {
                            self.phase = if self.patch_exit {
                                Phase::PatchingExit { form }
                            } else if self.redirect_output {
                                Phase::Redirecting { form }
                            } else {
                                Phase::Invoking { form }
                            };
                        },
                        None => self.fail(ClrError::MethodNotFound),
                    }
                },
                HostEvent::CallFailed { operation, status } => self.fail(
                    ClrError::ApiError(operation, status),
                ),
                _ => {},
            },
            Phase::PatchingExit { form } => match event {
                HostEvent::Patched => {
                    self.phase = if self.redirect_output {
                        Phase::Redirecting { form }
                    } else {
                        Phase::Invoking { form }
                    };
                },
                HostEvent::PatchFailed { message } => self.fail(ClrError::Msg(message)),
                HostEvent::CallFailed { operation, status } => self.fail(
                    ClrError::ApiError(operation, status),
                ),
                _ => {},
            },
            Phase::Redirecting { form } => match event {
                HostEvent::Redirected => {
                    self.phase = Phase::Invoking { form };
                },
                HostEvent::CallFailed { operation, status } => self.fail(
                    ClrError::ApiError(operation, status),
                ),
                _ => {},
            },
            Phase::Invoking { .. } => match event {
                HostEvent::Invoked => {
                    self.phase = if self.redirect_output {
                        Phase::Capturing
                    } else {
                        Phase::CollectingFirst
                    };
                },
                HostEvent::CallFailed { operation, status } => self.fail(
                    ClrError::ApiError(operation, status),
                ),
                _ => {},
            },
            Phase::Capturing => match event {
                HostEvent::OutputCaptured { text } => {
                    self.output = Some(text);
                    self.phase = Phase::CollectingFirst;
                },
                HostEvent::CallFailed { operation, status } => self.fail(
                    ClrError::ApiError(operation, status),
                ),
                _ => {},
            },
            Phase::CollectingFirst => match event {
                HostEvent::Collected => {
                    self.phase = Phase::WaitingFinalizers;
                },
                HostEvent::CallFailed { operation, status } => self.fail(
                    ClrError::ApiError(operation, status),
                ),
                _ => {},
            },
            Phase::WaitingFinalizers => match event {
                HostEvent::FinalizersWaited => {
                    self.phase = Phase::CollectingSecond;
                },
                HostEvent::CallFailed { operation, status } => self.fail(
                    ClrError::ApiError(operation, status),
                ),
                _ => {},
            },
            Phase::CollectingSecond => match event {
                HostEvent::Collected => {
                    self.phase = Phase::Unloading;
                },
                HostEvent::CallFailed { operation, status } => self.fail(
                    ClrError::ApiError(operation, status),
                ),
                _ => {},
            },
            Phase::Unloading => match event {
                HostEvent::DomainUnloaded => {
                    self.runtime.app_domain = None;
                    self.phase = Phase::ClearingStaged;
                },
                HostEvent::CallFailed { operation, status } => {
                    self.runtime.app_domain = None;
                    if self.pending_error.is_none() {
                        self.pending_error = Some(ClrError::ApiError(operation, status));
                    }
                    self.phase = Phase::ClearingStaged;
                },
                _ => {},
            },
            Phase::ClearingStaged => match event {
                HostEvent::Cleared => {
                    self.staged = false;
                    self.phase = Phase::Finished;
                },
                _ => {},
            },
            Phase::Finished => {},
        }
    }

    /// Takes the session's outcome: the first error when one occurred, else
    /// the captured output, else the empty string when redirection was off.
    pub fn take_result(&mut self) -> (r: Result<String, ClrError>)
        ensures
            old(self).pending_error matches Some(e) ==> r == Err::<String, ClrError>(e),
            old(self).pending_error is None ==> (old(self).output matches Some(t) ==> r == Ok::<
                String,
                ClrError,
            >(t)),
            old(self).pending_error is None && old(self).output is None ==> (r matches Ok(t) && t@
                == Seq::<char>::empty()),
            *final(self) == (RustClr { pending_error: None, output: None, ..*old(self) }),
    {
        let mut err: Option<ClrError> = None;
        core::mem::swap(&mut err, &mut self.pending_error);
        let mut out: Option<String> = None;
        core::mem::swap(&mut out, &mut self.output);
        match err {
            Some(e) => Err(e),
            None => match out {
                Some(t) => Ok(t),
                None => Ok(String::new()),
            },
        }
    }
}

/// A failure schedules the teardown still due and keeps the first error:
/// the context, when one exists, is unloaded; the staged state, when one
/// exists, is cleared; only then does the session end, as failed.
pub proof fn lemma_failure_schedules_teardown(s: RustClr, e: ClrError)
    ensures
        spec_fail(s, e).pending_error is Some,
        spec_session_state(spec_fail(s, e)) is Failed,
        s.runtime.app_domain is Some ==> spec_fail(s, e).phase is Unloading,
        s.runtime.app_domain is None && s.staged ==> spec_fail(s, e).phase is ClearingStaged,
        s.runtime.app_domain is None && !s.staged ==> spec_fail(s, e).phase is Finished,
        s.pending_error is None ==> spec_fail(s, e).pending_error == Some(e),
        s.pending_error is Some ==> spec_fail(s, e).pending_error == s.pending_error,
{
}

/// The teardown obligation the session carries: while the staged state is
/// being cleared the context is already released, and a finished session
/// has released its context and cleared the staged state — nothing is
/// leaked, whether the run succeeded or failed.
pub open spec fn teardown_complete(s: RustClr) -> bool {
    &&& s.phase is ClearingStaged ==> s.runtime.app_domain is None
    &&& s.phase is Finished ==> s.runtime.app_domain is None && !s.staged
}

/// A fresh session carries the teardown obligation trivially, every step
/// preserves it, and a terminal session absorbs every further event: once
/// finished, a session releases exactly what it acquired and changes no
/// more.
pub proof fn lemma_session_releases_everything(s: RustClr, e: HostEvent)
    requires
        teardown_complete(s),
    ensures
        teardown_complete(spec_step(s, e)),
        s.phase is Finished ==> spec_step(s, e) == s,
{
}

/// When discovery cannot resolve the requested version tag, the session
/// fails with the discovery error before any execution context is created,
/// and terminates without creating one.
pub proof fn lemma_discovery_failure_creates_no_context(s: RustClr, detail: String)
    requires
        s.phase is Locating,
        s.runtime.app_domain is None,
        s.pending_error is None,
        !s.staged,
    ensures
        ({
            let after = spec_step(s, HostEvent::VersionUnavailable { detail });
            &&& after.phase is Finished
            &&& after.pending_error == Some(ClrError::RuntimeInfoError(detail))
            &&& after.runtime.app_domain is None
            &&& spec_session_state(after) is Failed
        }),
{
}

} // verus!
