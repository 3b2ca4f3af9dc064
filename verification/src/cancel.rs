//! Trusted access to the one-shot channel of tokio through which a running
//! job's executor is cancelled.

use vstd::prelude::*;

verus! {

#[verifier::external_type_specification]
#[verifier::external_body]
#[verifier::reject_recursive_types(T)]
pub struct ExOneshotSender<T>(tokio::sync::oneshot::Sender<T>);

#[verifier::external_type_specification]
#[verifier::external_body]
#[verifier::reject_recursive_types(T)]
pub struct ExOneshotReceiver<T>(tokio::sync::oneshot::Receiver<T>);

/// The error that a receiver's future reports when its sender went away
/// unused; the receiver type names it.
#[verifier::external_type_specification]
#[verifier::external_body]
pub struct ExOneshotRecvError(tokio::sync::oneshot::error::RecvError);

/// The end of a cancel channel that the manager keeps, with the identity of
/// its channel.
pub struct CancelSender {
    end: tokio::sync::oneshot::Sender<()>,
    channel: Ghost<int>,
}

/// The end of a cancel channel that an executor listens on, with the identity
/// of its channel.
pub struct CancelReceiver {
    end: tokio::sync::oneshot::Receiver<()>,
    channel: Ghost<int>,
}

impl CancelSender {
    /// The identity of the channel this end belongs to.
    pub closed spec fn channel(&self) -> int {
        self.channel@
    }

}

/// The record of a cancel signal sent on a channel: the channel it went to,
/// and whether it was delivered. Only `send_cancel` makes one.
pub struct Delivery {
    delivered: bool,
    channel: Ghost<int>,
}

impl Delivery {
    /// The identity of the channel the signal was sent on.
    pub closed spec fn channel(&self) -> int {
        self.channel@
    }

    /// Whether the signal was delivered.
    pub closed spec fn was_delivered(&self) -> bool {
        self.delivered
    }

    /// Whether the signal was delivered.
    pub fn delivered(&self) -> (b: bool)
        ensures
            b == self.was_delivered(),
    {
        self.delivered
    }
}

impl CancelReceiver {
    /// The identity of the channel this end belongs to.
    pub closed spec fn channel(&self) -> int {
        self.channel@
    }

    /// The tokio end.
    pub fn into_inner(self) -> tokio::sync::oneshot::Receiver<()> {
        self.end
    }
}

/// Calls `tokio::sync::oneshot::channel` and keeps its two ends together with
/// one ghost identity. Claimed: the two ends belong to the same channel (what
/// `oneshot::channel` returns is the sender and the receiver of one channel).
/// Nothing is claimed of how identities of different calls compare.
#[verifier::external_body]
pub(crate) fn cancel_channel() -> (ends: (CancelSender, CancelReceiver))
    ensures
        ends.0.channel() == ends.1.channel(),
{
    let (tx, rx) = tokio::sync::oneshot::channel();
    (CancelSender { end: tx, channel: Ghost(0int) }, CancelReceiver { end: rx, channel: Ghost(0int) })
}

/// Calls `Sender::send` with the unit value on the given end and records
/// whether it was delivered, together with the identity of the end's channel.
/// Claimed: the record names the channel of the end that was sent on. Nothing
/// is claimed of whether the signal was delivered: that depends on whether the
/// receiving end is still alive, which no argument shows.
#[verifier::external_body]
pub(crate) fn send_cancel(tx: CancelSender) -> (d: Delivery)
    ensures
        d.channel() == tx.channel(),
{
    let channel = tx.channel;
    Delivery { delivered: tx.end.send(()).is_ok(), channel }
}

} // verus!
