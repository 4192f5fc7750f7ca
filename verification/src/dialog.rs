//! The synchronous bridge over the asynchronous folder-picker dialog.
//!
//! `select_folder` shows a native folder picker whose completion arrives on
//! an arbitrary thread as a callback. The bridge is a single-producer,
//! single-consumer, single-item handoff scoped to one invocation: the
//! callback delivers exactly one result into the slot, and the invocation
//! blocks until it can take that result. User cancellation is a normal
//! outcome carrying an absent value, never an error; only a producer that
//! goes away without delivering anything is reported as an error.

use vstd::prelude::*;

verus! {

/// The handoff slot for one `select_folder` invocation. It is never reused:
/// taking the delivered result consumes the slot.
#[derive(PartialEq, Eq, Debug)]
pub enum FolderHandoff {
    /// The dialog has not completed; the consumer would still block.
    Pending,
    /// The dialog completed: the chosen path, or an absent value when the
    /// user cancelled.
    Delivered(Option<String>),
}

/// The slot's state after the callback delivers its one result.
pub open spec fn after_send(h: FolderHandoff, outcome: Option<String>) -> FolderHandoff {
    FolderHandoff::Delivered(outcome)
}

/// The result carried by a completed slot.
pub open spec fn delivered_value(h: FolderHandoff) -> Option<String>
    recommends
        h is Delivered,
{
    match h {
        FolderHandoff::Delivered(v) => v,
        FolderHandoff::Pending => None,
    }
}

impl FolderHandoff {
    /// A fresh slot for one invocation, with nothing delivered yet.
    pub fn new() -> (h: Self)
        ensures
            h == FolderHandoff::Pending,
    {
        FolderHandoff::Pending
    }

    /// The producer's single send: the dialog callback delivers the chosen
    /// path, or an absent value for cancellation, into the empty slot.
    pub fn send(&mut self, outcome: Option<String>)
        requires
            *old(self) is Pending,
        ensures
            *final(self) == after_send(*old(self), outcome),
    {
        *self = FolderHandoff::Delivered(outcome);
    }

    /// The consumer's receive once the result has arrived: it yields exactly
    /// what the producer delivered and consumes the slot, so the slot can
    /// never be read twice.
    pub fn take(self) -> (r: Option<String>)
        requires
            self is Delivered,
        ensures
            r == delivered_value(self),
    {
        match self {
            FolderHandoff::Delivered(v) => v,
            FolderHandoff::Pending => unreached(),
        }
    }
}

/// Round trip through the handoff: whatever single result the dialog
/// callback sends — a path or the cancellation marker — is exactly what the
/// waiting invocation receives.
pub proof fn lemma_handoff_round_trip(outcome: Option<String>)
    ensures
        delivered_value(after_send(FolderHandoff::Pending, outcome)) == outcome,
{
}

/// No cross-talk between concurrent invocations: each invocation owns its
/// own slot, and the value it receives is determined solely by what its own
/// dialog callback delivered, independent of what any other invocation's
/// callback delivered.
pub proof fn lemma_handoffs_independent(a: Option<String>, b: Option<String>)
    ensures
        delivered_value(after_send(FolderHandoff::Pending, a)) == a,
        delivered_value(after_send(FolderHandoff::Pending, b)) == b,
{
}

/// The value `select_folder` reports from what the wait on the handoff
/// produced. A received result — a path, or the absent value for
/// cancellation — is returned unmodified and is never an error; only a
/// failed receive (the producer went away without delivering) is an error,
/// carrying the receive error's description behind a fixed prefix.
pub fn settle_folder_selection(received: Result<Option<String>, String>) -> (r: Result<
    Option<String>,
    String,
>)
    ensures
        received is Ok <==> r is Ok,
        received is Ok ==> r == received,
        received matches Err(detail) ==> (r matches Err(message) && message@
            == "Failed to receive folder path: "@ + detail@),
{
    match received {
        Ok(v) => Ok(v),
        Err(detail) => Err(
            String::from_str("Failed to receive folder path: ").concat(detail.as_str()),
        ),
    }
}

/// The title under which the folder-picker dialog is shown.
pub fn folder_dialog_title() -> (t: String)
    ensures
        t@ == "选择工作区文件夹"@,
{
    String::from_str("选择工作区文件夹")
}

} // verus!
