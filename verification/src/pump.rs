//! The decisions of a data pump: the loop that moves bytes one way over a
//! connection until the peer closes it. The caller makes each transfer and
//! asks here what to do with its outcome.

use vstd::prelude::*;

verus! {

/// The size of the buffer that a pump writes from or reads into: 1 MiB.
pub const BUFFER_SIZE: usize = 1024 * 1024;

/// What one write or one read came to.
#[derive(Clone, Copy, Debug, PartialEq, Eq, Structural)]
pub enum Transfer {
    /// The call returned, having moved this many bytes.
    Moved(usize),
    /// The call was interrupted before it moved anything.
    Interrupted,
    /// The call failed in any other way.
    Failed,
}

/// What a pump does after a transfer.
#[derive(Clone, Copy, Debug, PartialEq, Eq, Structural)]
pub enum PumpAction {
    /// Hand this many bytes to the sink and transfer again.
    Report(usize),
    /// Transfer again, with nothing handed to the sink.
    Retry,
    /// The peer has closed the connection: end the loop.
    Finish,
    /// The failure is fatal: end with a diagnostic.
    Abort,
}

/// The action that follows a transfer. Bytes that moved are reported, none
/// moved means that the peer has closed, an interrupted call is made again
/// and every other failure is fatal.
pub open spec fn action_after(transfer: Transfer) -> PumpAction {
    match transfer {
        Transfer::Moved(n) => if n == 0 {
            PumpAction::Finish
        } else {
            PumpAction::Report(n)
        },
        Transfer::Interrupted => PumpAction::Retry,
        Transfer::Failed => PumpAction::Abort,
    }
}

/// Decides what a pump does after `transfer`.
pub fn pump_step(transfer: Transfer) -> (action: PumpAction)
    ensures
        action == action_after(transfer),
{
    match transfer {
        Transfer::Moved(n) => if n == 0 {
            PumpAction::Finish
        } else {
            PumpAction::Report(n)
        },
        Transfer::Interrupted => PumpAction::Retry,
        Transfer::Failed => PumpAction::Abort,
    }
}

/// The bytes that a pump has handed to its sink once it has seen
/// `transfers`, in that order: those of each transfer up to the first one
/// that ends the loop.
pub open spec fn reported_bytes(transfers: Seq<Transfer>) -> nat
    decreases transfers.len(),
{
    if transfers.len() == 0 {
        0
    } else {
        match action_after(transfers[0]) {
            PumpAction::Report(n) => n as nat + reported_bytes(transfers.skip(1)),
            PumpAction::Retry => reported_bytes(transfers.skip(1)),
            PumpAction::Finish => 0,
            PumpAction::Abort => 0,
        }
    }
}

/// Whether a pump that has seen `transfers` is still running.
pub open spec fn still_running(transfers: Seq<Transfer>) -> bool {
    forall|i: int|
        0 <= i < transfers.len() ==> #[trigger] action_after(transfers[i]) != PumpAction::Finish
            && action_after(transfers[i]) != PumpAction::Abort
}

/// The bytes that moved in `transfers`.
pub open spec fn moved_bytes(transfers: Seq<Transfer>) -> nat
    decreases transfers.len(),
{
    if transfers.len() == 0 {
        0
    } else {
        (match transfers[0] {
            Transfer::Moved(n) => n as nat,
            _ => 0,
        }) + moved_bytes(transfers.skip(1))
    }
}

/// While a pump runs, it has reported each byte that moved, once.
pub proof fn lemma_reports_what_moved(transfers: Seq<Transfer>)
    requires
        still_running(transfers),
    ensures
        reported_bytes(transfers) == moved_bytes(transfers),
    decreases transfers.len(),
{
    if transfers.len() > 0 {
        let rest = transfers.skip(1);
        assert forall|i: int| 0 <= i < rest.len() implies #[trigger] action_after(rest[i])
            != PumpAction::Finish && action_after(rest[i]) != PumpAction::Abort by {
            assert(rest[i] == transfers[i + 1]);
        }
        assert(action_after(transfers[0]) != PumpAction::Finish);
        lemma_reports_what_moved(rest);
    }
}

} // verus!
