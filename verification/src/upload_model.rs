//! Mathematical model of the upload ingestion engine.
//!
//! One upload request is processed by a state machine that consumes the
//! request's parts one at a time: the first part must be the text field
//! `relative_path`, every later part a file whose name passes
//! [`crate::validators::valid_file_name`].  Each accepted file is handed
//! to the surrounding driver as a write order; the machine records every
//! ordered path so that a failure partway through can roll all of them
//! back.  [`spec_step`] is the complete transition function; the
//! executable machine in [`crate::upload`] is proved to follow it exactly.

use vstd::prelude::*;
use crate::validators::valid_file_name;

verus! {

/// The error classification a finished request reports.
///
/// `Validation` is the caller's fault (a client error); `Unexpected`
/// covers transport and file-system failures (a server error).
pub enum ModelError {
    Validation(Seq<char>),
    Unexpected(Seq<char>),
}

/// The states of one request, from the first part to a response.
pub enum ModelState {
    /// Nothing consumed yet; the `relative_path` field is owed first.
    AwaitingPathField,
    /// The destination base is fixed; file parts may follow.
    AwaitingFileField { base: Seq<char>, wrote_any: bool },
    /// One file's bytes are being streamed to disk.
    Writing { base: Seq<char> },
    /// Terminal success: at least one file was written.
    Completed,
    /// Terminal failure: every recorded path was handed back for cleanup.
    Failed,
}

/// What the transport or the disk reports to the machine.
pub enum ModelEvent {
    /// A part that carries text and no file name.  `value` is its body
    /// decoded as UTF-8, or `None` when the bytes were not valid UTF-8.
    TextField { name: Seq<char>, value: Option<Seq<char>> },
    /// A part that carries a file body, with its declared name if any.
    FileField { file_name: Option<Seq<char>> },
    /// The request body ended cleanly.
    NoMoreFields,
    /// Malformed framing, a truncated body, or a client disconnect.
    TransportError { message: Seq<char> },
    /// The pending file write finished and every byte was handed over.
    WriteDone,
    /// The pending file write aborted.
    WriteFailed { message: Seq<char> },
}

/// What the machine orders the driver to do next.
pub enum ModelAction {
    /// Fetch the next part of the request.
    ReadField,
    /// Stream the current part's bytes to this path.
    WriteFile { path: Seq<char> },
    /// Answer the caller with the empty success response.
    Succeed,
    /// Delete the listed paths, in the order they were written, then
    /// answer the caller with the error.  Cleanup failures must not
    /// displace `error`.
    Fail { cleanup: Seq<Seq<char>>, error: ModelError },
}

/// The whole machine: the trusted storage root, the current state, and
/// the paths written so far in write order.
pub struct ModelMachine {
    pub root: Seq<char>,
    pub state: ModelState,
    pub written: Seq<Seq<char>>,
}

/// The machine a fresh request starts from.
pub open spec fn init(root: Seq<char>) -> ModelMachine {
    ModelMachine { root, state: ModelState::AwaitingPathField, written: Seq::empty() }
}

/// Joining one path part onto a base, with a single separator.
///
/// Chosen traversal policy, stated here because it is a deliberate
/// decision: the caller-supplied relative path is joined under the
/// root exactly as given — it is not normalized, and `..` or absolute
/// segments in it are not rejected, so the operator must only expose
/// the service to callers trusted with the whole tree under the root.
/// File names, by contrast, are confined to a single path segment:
/// [`crate::validators::valid_file_name`] rejects any name holding a
/// `/`, so a file part can never name a directory of its own.
pub open spec fn joined(base: Seq<char>, segment: Seq<char>) -> Seq<char> {
    base + "/"@ + segment
}

/// Which events a state can be given: parts while parts are awaited, a
/// write outcome while a write is in flight, nothing once terminal.
pub open spec fn accepts(state: ModelState, event: ModelEvent) -> bool {
    match state {
        ModelState::AwaitingPathField | ModelState::AwaitingFileField { .. } => match event {
            ModelEvent::TextField { .. } => true,
            ModelEvent::FileField { .. } => true,
            ModelEvent::NoMoreFields => true,
            ModelEvent::TransportError { .. } => true,
            _ => false,
        },
        ModelState::Writing { .. } => match event {
            ModelEvent::WriteDone => true,
            ModelEvent::WriteFailed { .. } => true,
            _ => false,
        },
        ModelState::Completed | ModelState::Failed => false,
    }
}

/// The machine after a failure: terminal, with nothing left to roll back.
pub open spec fn failed_machine(m: ModelMachine) -> ModelMachine {
    ModelMachine { root: m.root, state: ModelState::Failed, written: Seq::empty() }
}

/// The failure transition: every recorded path is handed back for
/// best-effort deletion together with the originating error.
pub open spec fn fail_step(m: ModelMachine, error: ModelError) -> (ModelMachine, ModelAction) {
    (failed_machine(m), ModelAction::Fail { cleanup: m.written, error })
}

/// The complete transition function of the upload engine.
///
/// Meaningful whenever `accepts(m.state, event)` holds; on an event the
/// state does not await, the machine is left unchanged.
pub open spec fn spec_step(m: ModelMachine, event: ModelEvent) -> (ModelMachine, ModelAction) {
    match m.state {
        ModelState::AwaitingPathField => match event {
            ModelEvent::TextField { name, value } => {
                if name != "relative_path"@ {
                    fail_step(m, ModelError::Validation("expected field 'relative_path'"@))
                } else {
                    match value {
                        None => fail_step(
                            m,
                            ModelError::Validation("relative_path is not valid UTF-8"@),
                        ),
                        Some(rel) => (
                            ModelMachine {
                                root: m.root,
                                state: ModelState::AwaitingFileField {
                                    base: joined(m.root, rel),
                                    wrote_any: false,
                                },
                                written: m.written,
                            },
                            ModelAction::ReadField,
                        ),
                    }
                }
            },
            ModelEvent::FileField { .. } => fail_step(
                m,
                ModelError::Validation("expected field 'relative_path'"@),
            ),
            ModelEvent::NoMoreFields => fail_step(
                m,
                ModelError::Validation("missing relative_path field"@),
            ),
            ModelEvent::TransportError { message } => fail_step(
                m,
                ModelError::Unexpected(message),
            ),
            _ => (m, ModelAction::ReadField),
        },
        ModelState::AwaitingFileField { base, wrote_any } => match event {
            ModelEvent::FileField { file_name } => match file_name {
                None => fail_step(m, ModelError::Unexpected("Failed to get file name"@)),
                Some(name) => {
                    if !valid_file_name(name) {
                        fail_step(m, ModelError::Validation("Invalid file name: "@ + name))
                    } else {
                        (
                            ModelMachine {
                                root: m.root,
                                state: ModelState::Writing { base },
                                written: m.written.push(joined(base, name)),
                            },
                            ModelAction::WriteFile { path: joined(base, name) },
                        )
                    }
                },
            },
            ModelEvent::TextField { .. } => fail_step(
                m,
                ModelError::Unexpected("Failed to get file name"@),
            ),
            ModelEvent::NoMoreFields => {
                if wrote_any {
                    (
                        ModelMachine {
                            root: m.root,
                            state: ModelState::Completed,
                            written: m.written,
                        },
                        ModelAction::Succeed,
                    )
                } else {
                    fail_step(
                        m,
                        ModelError::Validation("No files were in the multipart form"@),
                    )
                }
            },
            ModelEvent::TransportError { message } => fail_step(
                m,
                ModelError::Unexpected(message),
            ),
            _ => (m, ModelAction::ReadField),
        },
        ModelState::Writing { base } => match event {
            ModelEvent::WriteDone => (
                ModelMachine {
                    root: m.root,
                    state: ModelState::AwaitingFileField { base, wrote_any: true },
                    written: m.written,
                },
                ModelAction::ReadField,
            ),
            ModelEvent::WriteFailed { message } => fail_step(
                m,
                ModelError::Unexpected(message),
            ),
            _ => (m, ModelAction::ReadField),
        },
        ModelState::Completed | ModelState::Failed => (m, ModelAction::ReadField),
    }
}

/// The machine's internal invariant, tying the recorded paths to the
/// state: nothing is recorded before the first write order, something is
/// recorded whenever a write is in flight or success was reported, and a
/// failed machine has handed everything back.
pub open spec fn inv(m: ModelMachine) -> bool {
    match m.state {
        ModelState::AwaitingPathField => m.written.len() == 0,
        ModelState::AwaitingFileField { base: _, wrote_any } => wrote_any <==> m.written.len()
            > 0,
        ModelState::Writing { .. } => m.written.len() > 0,
        ModelState::Completed => m.written.len() > 0,
        ModelState::Failed => m.written.len() == 0,
    }
}

/// One step preserves the invariant and accounts exactly for the
/// recorded paths: a write order appends its path, a failure hands back
/// everything recorded, and success changes nothing.
pub proof fn lemma_step_accounts_for_writes(m: ModelMachine, event: ModelEvent)
    requires
        inv(m),
        accepts(m.state, event),
    ensures
        ({
            let (m2, a) = spec_step(m, event);
            &&& inv(m2)
            &&& m2.root == m.root
            &&& (a matches ModelAction::WriteFile { path } ==> m2.written == m.written.push(path))
            &&& (a matches ModelAction::Fail { cleanup, error: _ } ==> cleanup == m.written
                && m2.written.len() == 0 && m2.state is Failed)
            &&& (a is Succeed ==> m2.state is Completed && m2.written == m.written
                && m.written.len() > 0)
            &&& (a is ReadField ==> m2.written == m.written && !(m2.state is Completed) && !(
            m2.state is Failed))
        }),
{
}

} // verus!
