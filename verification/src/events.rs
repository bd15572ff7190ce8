//! The shape of the messages the kernel posts on a group's notification
//! channel, and the sole condition under which the completion wait may end.

use vstd::prelude::*;

verus! {

/// Message code: the group's active-process count became zero.
pub const MSG_ACTIVE_PROCESS_ZERO: u32 = 4;

/// Message code: a process was added to the group.
pub const MSG_NEW_PROCESS: u32 = 6;

/// Message code: a member process exited.
pub const MSG_EXIT_PROCESS: u32 = 7;

/// Message code: a member process exited abnormally.
pub const MSG_ABNORMAL_EXIT_PROCESS: u32 = 8;

/// What a notification says about the group's membership.
#[derive(Clone, Copy, Debug, PartialEq, Eq)]
pub enum GroupEvent {
    /// A process joined the group.
    MemberAdded,
    /// A member process exited, normally or not.
    MemberExited,
    /// The group has no active member process left.
    GroupEmptied,
    /// Any other lifecycle message; never ends the wait.
    Other,
}

/// One message dequeued from a notification channel: the identifier of the
/// object that posted it and the lifecycle event code.
#[derive(Clone, Copy, Debug, PartialEq, Eq)]
pub struct Notification {
    pub source: u64,
    pub code: u32,
}

/// The membership event a message code stands for.
pub open spec fn spec_classify(code: u32) -> GroupEvent {
    if code == MSG_ACTIVE_PROCESS_ZERO {
        GroupEvent::GroupEmptied
    } else if code == MSG_NEW_PROCESS {
        GroupEvent::MemberAdded
    } else if code == MSG_EXIT_PROCESS || code == MSG_ABNORMAL_EXIT_PROCESS {
        GroupEvent::MemberExited
    } else {
        GroupEvent::Other
    }
}

/// The membership event a message code stands for.
pub fn classify_message(code: u32) -> (e: GroupEvent)
    ensures
        e == spec_classify(code),
{
    if code == MSG_ACTIVE_PROCESS_ZERO {
        GroupEvent::GroupEmptied
    } else if code == MSG_NEW_PROCESS {
        GroupEvent::MemberAdded
    } else if code == MSG_EXIT_PROCESS || code == MSG_ABNORMAL_EXIT_PROCESS {
        GroupEvent::MemberExited
    } else {
        GroupEvent::Other
    }
}

/// True exactly when a notification ends the completion wait: it was posted
/// by this run's group and reports that the active-process count is zero.
pub open spec fn is_completion(group_id: u64, n: Notification) -> bool {
    n.source == group_id && spec_classify(n.code) == GroupEvent::GroupEmptied
}

/// True exactly when a notification ends the completion wait.
pub fn ends_wait(group_id: u64, n: &Notification) -> (r: bool)
    ensures
        r == is_completion(group_id, *n),
{
    n.source == group_id && matches!(classify_message(n.code), GroupEvent::GroupEmptied)
}

} // verus!
