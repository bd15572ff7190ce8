//! The failure taxonomy of a run: every failure is an operating-system call
//! that reported an error, named by the operation that was attempted.

use vstd::prelude::*;

verus! {

/// Process exit status used for every fatal failure.
pub const EXIT_ERROR: i32 = 2;

/// The operating-system operations a run performs; a failure report names one.
#[derive(Clone, Copy, Debug, PartialEq, Eq)]
pub enum Op {
    /// Query of the monotonic counter's tick frequency.
    QueryFrequency,
    /// Sample of the monotonic counter.
    QueryCounter,
    /// Creation of the kernel grouping object.
    CreateGroup,
    /// Creation of the notification channel.
    CreateChannel,
    /// Binding the grouping object to the notification channel.
    AssociateChannel,
    /// Creation of the target process in a suspended state.
    CreateProcess,
    /// Placing the suspended process into the grouping object.
    AttachProcess,
    /// Dequeue of one message from the notification channel.
    WaitDequeue,
    /// Query of the group's aggregate CPU accounting.
    QueryAccounting,
}

/// The two failure classes; they differ only in which operation failed.
#[derive(Clone, Copy, Debug, PartialEq, Eq)]
pub enum ErrorKind {
    /// Creating or wiring up a kernel object failed.
    ResourceCreationFailed,
    /// Reading a counter, a notification or the accounting failed.
    QueryFailed,
}

/// The class an operation's failure falls under.
pub open spec fn kind_of(op: Op) -> ErrorKind {
    match op {
        Op::QueryFrequency => ErrorKind::QueryFailed,
        Op::QueryCounter => ErrorKind::QueryFailed,
        Op::CreateGroup => ErrorKind::ResourceCreationFailed,
        Op::CreateChannel => ErrorKind::ResourceCreationFailed,
        Op::AssociateChannel => ErrorKind::ResourceCreationFailed,
        Op::CreateProcess => ErrorKind::ResourceCreationFailed,
        Op::AttachProcess => ErrorKind::ResourceCreationFailed,
        Op::WaitDequeue => ErrorKind::QueryFailed,
        Op::QueryAccounting => ErrorKind::QueryFailed,
    }
}

/// The platform name of the call behind an operation.
pub open spec fn spec_op_name(op: Op) -> Seq<char> {
    match op {
        Op::QueryFrequency => "QueryPerformanceFrequency"@,
        Op::QueryCounter => "QueryPerformanceCounter"@,
        Op::CreateGroup => "CreateJobObjectW"@,
        Op::CreateChannel => "CreateIoCompletionPort"@,
        Op::AssociateChannel => "SetInformationJobObject"@,
        Op::CreateProcess => "CreateProcessW"@,
        Op::AttachProcess => "AssignProcessToJobObject"@,
        Op::WaitDequeue => "GetQueuedCompletionStatus"@,
        Op::QueryAccounting => "QueryInformationJobObject"@,
    }
}

/// A fatal failure: the operation that failed and the platform's description
/// of the underlying error.
#[derive(Debug, PartialEq, Eq)]
pub struct RunError {
    pub op: Op,
    pub detail: String,
}

impl RunError {
    /// The failure class this error falls under.
    pub fn kind(&self) -> (k: ErrorKind)
        ensures
            k == kind_of(self.op),
    {
        match self.op {
            Op::QueryFrequency => ErrorKind::QueryFailed,
            Op::QueryCounter => ErrorKind::QueryFailed,
            Op::CreateGroup => ErrorKind::ResourceCreationFailed,
            Op::CreateChannel => ErrorKind::ResourceCreationFailed,
            Op::AssociateChannel => ErrorKind::ResourceCreationFailed,
            Op::CreateProcess => ErrorKind::ResourceCreationFailed,
            Op::AttachProcess => ErrorKind::ResourceCreationFailed,
            Op::WaitDequeue => ErrorKind::QueryFailed,
            Op::QueryAccounting => ErrorKind::QueryFailed,
        }
    }
}

/// The platform name of the call behind an operation.
pub fn op_name(op: Op) -> (r: &'static str)
    ensures
        r@ == spec_op_name(op),
{
    match op {
        Op::QueryFrequency => "QueryPerformanceFrequency",
        Op::QueryCounter => "QueryPerformanceCounter",
        Op::CreateGroup => "CreateJobObjectW",
        Op::CreateChannel => "CreateIoCompletionPort",
        Op::AssociateChannel => "SetInformationJobObject",
        Op::CreateProcess => "CreateProcessW",
        Op::AttachProcess => "AssignProcessToJobObject",
        Op::WaitDequeue => "GetQueuedCompletionStatus",
        Op::QueryAccounting => "QueryInformationJobObject",
    }
}

/// The diagnostic line for a failure: the operation's platform name, a colon
/// and the platform's error description.
pub fn render_error(e: &RunError) -> (s: String)
    ensures
        s@ == spec_op_name(e.op) + ": "@ + e.detail@,
{
    let mut s = String::from_str(op_name(e.op));
    s.append(": ");
    s.append(e.detail.as_str());
    s
}

} // verus!
