//! The executable upload engine.
//!
//! [`UploadOrchestrator`] runs one request.  A driver owns the transport
//! and the disk: it asks the machine what to do, performs the ordered
//! I/O, and reports the outcome back as the next [`UploadEvent`].  Every
//! step is proved to follow the model transition
//! [`crate::upload_model::spec_step`] exactly, so everything shown of
//! the model holds of this code.

use vstd::prelude::*;
use vstd::string::StringExecFns;
use crate::upload_model::{
    accepts, init, spec_step, joined, ModelAction, ModelError, ModelEvent, ModelMachine,
    ModelState,
};
use crate::validators::validate_file_name;

verus! {

/// The error a finished request reports.
///
/// `ValidationError` is the caller's fault and maps to a client-error
/// response; `UnexpectedError` covers transport and file-system
/// failures and maps to a server-error response.
#[derive(Debug)]
pub enum UploadError {
    ValidationError(String),
    UnexpectedError(String),
}

impl View for UploadError {
    type V = ModelError;

    open spec fn view(&self) -> ModelError {
        match self {
            UploadError::ValidationError(m) => ModelError::Validation(m@),
            UploadError::UnexpectedError(m) => ModelError::Unexpected(m@),
        }
    }
}

/// The message of either error, at the model level.
pub open spec fn spec_error_message(e: ModelError) -> Seq<char> {
    match e {
        ModelError::Validation(m) => m,
        ModelError::Unexpected(m) => m,
    }
}

impl UploadError {
    /// A validation error is the caller's fault: a client error.
    pub fn is_client_error(&self) -> (r: bool)
        ensures
            r == (self@ is Validation),
    {
        match self {
            UploadError::ValidationError(_) => true,
            UploadError::UnexpectedError(_) => false,
        }
    }

    /// The human-readable message carried by the error.
    pub fn into_message(self) -> (r: String)
        ensures
            r@ == spec_error_message(self@),
    {
        match self {
            UploadError::ValidationError(m) => m,
            UploadError::UnexpectedError(m) => m,
        }
    }
}

/// What the transport or the disk reports to the machine; the runtime
/// form of [`ModelEvent`].
pub enum UploadEvent {
    /// A part carrying text: its field name, and its body decoded as
    /// UTF-8 (`None` when the bytes were not valid UTF-8).
    TextField { name: String, value: Option<String> },
    /// A part carrying a file body, with its declared file name if any.
    FileField { file_name: Option<String> },
    /// The request body ended cleanly.
    NoMoreFields,
    /// Malformed framing, a truncated body, or a client disconnect.
    TransportError { message: String },
    /// The pending file write finished completely.
    WriteDone,
    /// The pending file write aborted.
    WriteFailed { message: String },
}

impl View for UploadEvent {
    type V = ModelEvent;

    open spec fn view(&self) -> ModelEvent {
        match self {
            UploadEvent::TextField { name, value } => ModelEvent::TextField {
                name: name@,
                value: value.deep_view(),
            },
            UploadEvent::FileField { file_name } => ModelEvent::FileField {
                file_name: file_name.deep_view(),
            },
            UploadEvent::NoMoreFields => ModelEvent::NoMoreFields,
            UploadEvent::TransportError { message } => ModelEvent::TransportError {
                message: message@,
            },
            UploadEvent::WriteDone => ModelEvent::WriteDone,
            UploadEvent::WriteFailed { message } => ModelEvent::WriteFailed { message: message@ },
        }
    }
}

/// What the machine orders the driver to do next; the runtime form of
/// [`ModelAction`].
pub enum UploadAction {
    /// Fetch the next part of the request.
    ReadField,
    /// Stream the current part's bytes to the file at `path`.
    WriteFile { path: String },
    /// Answer the caller with the empty success response.
    Succeed,
    /// Delete the listed paths in order, best effort, then answer the
    /// caller with `error`; a cleanup failure must not displace it.
    Fail { cleanup: Vec<String>, error: UploadError },
}

impl View for UploadAction {
    type V = ModelAction;

    open spec fn view(&self) -> ModelAction {
        match self {
            UploadAction::ReadField => ModelAction::ReadField,
            UploadAction::WriteFile { path } => ModelAction::WriteFile { path: path@ },
            UploadAction::Succeed => ModelAction::Succeed,
            UploadAction::Fail { cleanup, error } => ModelAction::Fail {
                cleanup: cleanup.deep_view(),
                error: error@,
            },
        }
    }
}

/// The states of one request; the runtime form of [`ModelState`].
pub enum UploadState {
    AwaitingPathField,
    AwaitingFileField { base_path: String, wrote_any: bool },
    Writing { base_path: String },
    Completed,
    Failed,
}

impl View for UploadState {
    type V = ModelState;

    open spec fn view(&self) -> ModelState {
        match self {
            UploadState::AwaitingPathField => ModelState::AwaitingPathField,
            UploadState::AwaitingFileField { base_path, wrote_any } => {
                ModelState::AwaitingFileField { base: base_path@, wrote_any: *wrote_any }
            },
            UploadState::Writing { base_path } => ModelState::Writing { base: base_path@ },
            UploadState::Completed => ModelState::Completed,
            UploadState::Failed => ModelState::Failed,
        }
    }
}

/// One request's engine: the storage root it was created with, its
/// current state, and every path written so far, in write order.
pub struct UploadOrchestrator {
    root: String,
    state: UploadState,
    written_paths: Vec<String>,
}

impl View for UploadOrchestrator {
    type V = ModelMachine;

    closed spec fn view(&self) -> ModelMachine {
        ModelMachine {
            root: self.root@,
            state: self.state@,
            written: self.written_paths.deep_view(),
        }
    }
}

/// `base`, a separator, then `segment`: the one way paths are built.
fn join_path(base: &String, segment: &String) -> (r: String)
    ensures
        r@ == joined(base@, segment@),
{
    let mut s = base.clone();
    s.append("/");
    s.append(segment.as_str());
    s
}

/// The failure transition: hand every recorded path back for cleanup.
fn fail_step_exec(root: String, written_paths: Vec<String>, error: UploadError) -> (r: (
    UploadOrchestrator,
    UploadAction,
))
    ensures
        r.0@ == (ModelMachine { root: root@, state: ModelState::Failed, written: Seq::empty() }),
        r.1@ == (ModelAction::Fail { cleanup: written_paths.deep_view(), error: error@ }),
{
    let empty: Vec<String> = Vec::new();
    proof {
        assert(empty.deep_view() =~= Seq::<Seq<char>>::empty());
    }
    (
        UploadOrchestrator { root, state: UploadState::Failed, written_paths: empty },
        UploadAction::Fail { cleanup: written_paths, error },
    )
}

impl UploadOrchestrator {
    /// A fresh engine for one request under the given storage root.
    ///
    /// The root is operator-configured and trusted; it is never empty
    /// and never derived from caller input.
    pub fn new(root: String) -> (r: UploadOrchestrator)
        requires
            root@.len() > 0,
        ensures
            r@ == init(root@),
    {
        let written_paths: Vec<String> = Vec::new();
        proof {
            assert(written_paths.deep_view() =~= Seq::<Seq<char>>::empty());
        }
        UploadOrchestrator { root, state: UploadState::AwaitingPathField, written_paths }
    }

    /// True once the machine has answered the caller, one way or the
    /// other; no further event is accepted then.
    pub fn is_terminal(&self) -> (r: bool)
        ensures
            r == (self@.state is Completed || self@.state is Failed),
    {
        match &self.state {
            UploadState::Completed => true,
            UploadState::Failed => true,
            _ => false,
        }
    }

    /// Every path written so far, in the order it was written.
    pub fn written_paths(&self) -> (r: &Vec<String>)
        ensures
            r.deep_view() == self@.written,
    {
        &self.written_paths
    }

    /// Feed the machine the event it is waiting for and get the next
    /// order; the step follows the model transition exactly.
    pub fn step(self, event: UploadEvent) -> (r: (UploadOrchestrator, UploadAction))
        requires
            accepts(self@.state, event@),
        ensures
            r.0@ == spec_step(self@, event@).0,
            r.1@ == spec_step(self@, event@).1,
    {
        let UploadOrchestrator { root, state, written_paths } = self;
        match state {
            UploadState::AwaitingPathField => match event {
                UploadEvent::TextField { name, value } => {
                    let expected = String::from_str("relative_path");
                    if !name.eq(&expected) {
                        fail_step_exec(
                            root,
                            written_paths,
                            UploadError::ValidationError(
                                String::from_str("expected field 'relative_path'"),
                            ),
                        )
                    } else {
                        match value {
                            None => fail_step_exec(
                                root,
                                written_paths,
                                UploadError::ValidationError(
                                    String::from_str("relative_path is not valid UTF-8"),
                                ),
                            ),
                            Some(rel) => {
                                let base_path = join_path(&root, &rel);
                                (
                                    UploadOrchestrator {
                                        root,
                                        state: UploadState::AwaitingFileField {
                                            base_path,
                                            wrote_any: false,
                                        },
                                        written_paths,
                                    },
                                    UploadAction::ReadField,
                                )
                            },
                        }
                    }
                },
                UploadEvent::FileField { file_name: _ } => fail_step_exec(
                    root,
                    written_paths,
                    UploadError::ValidationError(
                        String::from_str("expected field 'relative_path'"),
                    ),
                ),
                UploadEvent::NoMoreFields => fail_step_exec(
                    root,
                    written_paths,
                    UploadError::ValidationError(String::from_str("missing relative_path field")),
                ),
                UploadEvent::TransportError { message } => fail_step_exec(
                    root,
                    written_paths,
                    UploadError::UnexpectedError(message),
                ),
                _ => vstd::pervasive::unreached(),
            },
            UploadState::AwaitingFileField { base_path, wrote_any } => match event {
                UploadEvent::FileField { file_name } => match file_name {
                    None => fail_step_exec(
                        root,
                        written_paths,
                        UploadError::UnexpectedError(String::from_str("Failed to get file name")),
                    ),
                    Some(name) => match validate_file_name(name.as_str()) {
                        Err(message) => fail_step_exec(
                            root,
                            written_paths,
                            UploadError::ValidationError(message),
                        ),
                        Ok(()) => {
                            let path = join_path(&base_path, &name);
                            let mut written_paths = written_paths;
                            let ghost written_before = written_paths.deep_view();
                            written_paths.push(path.clone());
                            proof {
                                assert(written_paths.deep_view() =~= written_before.push(path@));
                            }
                            (
                                UploadOrchestrator {
                                    root,
                                    state: UploadState::Writing { base_path },
                                    written_paths,
                                },
                                UploadAction::WriteFile { path },
                            )
                        },
                    },
                },
                UploadEvent::TextField { name: _, value: _ } => fail_step_exec(
                    root,
                    written_paths,
                    UploadError::UnexpectedError(String::from_str("Failed to get file name")),
                ),
                UploadEvent::NoMoreFields => {
                    if wrote_any {
                        (
                            UploadOrchestrator {
                                root,
                                state: UploadState::Completed,
                                written_paths,
                            },
                            UploadAction::Succeed,
                        )
                    } else {
                        fail_step_exec(
                            root,
                            written_paths,
                            UploadError::ValidationError(
                                String::from_str("No files were in the multipart form"),
                            ),
                        )
                    }
                },
                UploadEvent::TransportError { message } => fail_step_exec(
                    root,
                    written_paths,
                    UploadError::UnexpectedError(message),
                ),
                _ => vstd::pervasive::unreached(),
            },
            UploadState::Writing { base_path } => match event {
                UploadEvent::WriteDone => (
                    UploadOrchestrator {
                        root,
                        state: UploadState::AwaitingFileField { base_path, wrote_any: true },
                        written_paths,
                    },
                    UploadAction::ReadField,
                ),
                UploadEvent::WriteFailed { message } => fail_step_exec(
                    root,
                    written_paths,
                    UploadError::UnexpectedError(message),
                ),
                _ => vstd::pervasive::unreached(),
            },
            UploadState::Completed => vstd::pervasive::unreached(),
            UploadState::Failed => vstd::pervasive::unreached(),
        }
    }
}

} // verus!
