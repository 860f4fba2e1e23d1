//! The failures that the communication core reports to its caller.
use vstd::prelude::*;

verus! {

/// Why an operation of the communication core failed.
#[derive(Debug, PartialEq, Eq)]
pub enum CommError {
    /// `stop_comm` was asked for a namespace that no server was started for.
    ServerNotStarted { mnt_namespace: String },
    /// The per-namespace queue has lost its receiver; `message` comes back.
    SendToProbeFailed { message: String },
    /// The shared queue has lost its receiver; the pair comes back.
    SendMessageFailed { pid: i32, message: String },
    /// The mount helper ran and did not exit with success.
    MountScriptFailed { status: String, stdout: String, stderr: String },
    /// The mount helper could not be run.
    CannotMount { reason: String },
    /// The link helper could not be run.
    LinkFailed { reason: String },
    /// The server for a namespace could not be spawned.
    SpawnFailed { reason: String },
    /// No daemon variant exists for this kernel.
    KernelNotSupported { major: u8, minor: u8 },
    /// The daemon's output stream is not held.
    NoStdout,
    /// The daemon stayed silent through every poll for this pid.
    ReadTimeout { pid: i32 },
    /// The daemon closed its output stream.
    ReadEof,
    /// The daemon answered for another pid.
    PidMismatch { expect: i32, answered: i32 },
    /// The pattern matched but its groups are not a pid and an outcome.
    ResponseFormat { response: String },
    /// Nothing in the line has the form of a response.
    ResponseNotFound { response: String },
    /// The digits of the response do not fit a pid.
    ResponsePid { digits: String },
    /// The response pattern was refused by the expression engine.
    Pattern,
    /// Reading from the daemon failed.
    Io { reason: String },
    /// Writing to the daemon failed.
    WriteFailed { reason: String },
    /// The kernel's release string is not a version.
    KernelVersion { release: String },
}

/// The mathematical value of a `CommError`: strings as sequences.
pub ghost enum CommErrorView {
    ServerNotStarted { mnt_namespace: Seq<char> },
    SendToProbeFailed { message: Seq<char> },
    SendMessageFailed { pid: i32, message: Seq<char> },
    MountScriptFailed { status: Seq<char>, stdout: Seq<char>, stderr: Seq<char> },
    CannotMount { reason: Seq<char> },
    LinkFailed { reason: Seq<char> },
    SpawnFailed { reason: Seq<char> },
    KernelNotSupported { major: u8, minor: u8 },
    NoStdout,
    ReadTimeout { pid: i32 },
    ReadEof,
    PidMismatch { expect: i32, answered: i32 },
    ResponseFormat { response: Seq<char> },
    ResponseNotFound { response: Seq<char> },
    ResponsePid { digits: Seq<char> },
    Pattern,
    Io { reason: Seq<char> },
    WriteFailed { reason: Seq<char> },
    KernelVersion { release: Seq<char> },
}

impl View for CommError {
    type V = CommErrorView;

    open spec fn view(&self) -> CommErrorView {
        match *self {
            CommError::ServerNotStarted { mnt_namespace } => CommErrorView::ServerNotStarted {
                mnt_namespace: mnt_namespace@,
            },
            CommError::SendToProbeFailed { message } => CommErrorView::SendToProbeFailed {
                message: message@,
            },
            CommError::SendMessageFailed { pid, message } => CommErrorView::SendMessageFailed {
                pid,
                message: message@,
            },
            CommError::MountScriptFailed { status, stdout, stderr } => {
                CommErrorView::MountScriptFailed {
                    status: status@,
                    stdout: stdout@,
                    stderr: stderr@,
                }
            },
            CommError::CannotMount { reason } => CommErrorView::CannotMount { reason: reason@ },
            CommError::LinkFailed { reason } => CommErrorView::LinkFailed { reason: reason@ },
            CommError::SpawnFailed { reason } => CommErrorView::SpawnFailed { reason: reason@ },
            CommError::KernelNotSupported { major, minor } => CommErrorView::KernelNotSupported {
                major,
                minor,
            },
            CommError::NoStdout => CommErrorView::NoStdout,
            CommError::ReadTimeout { pid } => CommErrorView::ReadTimeout { pid },
            CommError::ReadEof => CommErrorView::ReadEof,
            CommError::PidMismatch { expect, answered } => CommErrorView::PidMismatch {
                expect,
                answered,
            },
            CommError::ResponseFormat { response } => CommErrorView::ResponseFormat {
                response: response@,
            },
            CommError::ResponseNotFound { response } => CommErrorView::ResponseNotFound {
                response: response@,
            },
            CommError::ResponsePid { digits } => CommErrorView::ResponsePid { digits: digits@ },
            CommError::Pattern => CommErrorView::Pattern,
            CommError::Io { reason } => CommErrorView::Io { reason: reason@ },
            CommError::WriteFailed { reason } => CommErrorView::WriteFailed { reason: reason@ },
            CommError::KernelVersion { release } => CommErrorView::KernelVersion {
                release: release@,
            },
        }
    }
}

/// A text or a failure, by its view.
pub open spec fn text_result_view(r: Result<String, CommError>) -> Result<Seq<char>, CommErrorView> {
    match r {
        Ok(text) => Ok(text@),
        Err(e) => Err(e@),
    }
}

/// A parsed response or a failure, by its view.
pub open spec fn response_view(r: Result<(i32, bool), CommError>) -> Result<
    (i32, bool),
    CommErrorView,
> {
    match r {
        Ok(pair) => Ok(pair),
        Err(e) => Err(e@),
    }
}

impl CommError {
    /// Whether the failure means that the whole channel to the probes is
    /// broken, so that the coordinator has to stop the agent: a queue or a
    /// daemon pipe that is gone, a daemon that stays silent or answers for
    /// another pid. A line that cannot be parsed concerns one request only.
    pub open spec fn spec_is_fatal(&self) -> bool {
        match *self {
            CommError::SendMessageFailed { .. } => true,
            CommError::NoStdout => true,
            CommError::ReadTimeout { .. } => true,
            CommError::ReadEof => true,
            CommError::PidMismatch { .. } => true,
            CommError::Io { .. } => true,
            _ => false,
        }
    }

    /// Whether the coordinator has to stop the agent on this failure.
    #[verifier::when_used_as_spec(spec_is_fatal)]
    pub fn is_fatal(&self) -> (fatal: bool)
        ensures
            fatal == self.spec_is_fatal(),
    {
        match self {
            CommError::SendMessageFailed { .. } => true,
            CommError::NoStdout => true,
            CommError::ReadTimeout { .. } => true,
            CommError::ReadEof => true,
            CommError::PidMismatch { .. } => true,
            CommError::Io { .. } => true,
            _ => false,
        }
    }
}

} // verus!
