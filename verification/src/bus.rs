//! Handing updates to the tasks that listen for them.
use vstd::prelude::*;

use tokio::sync::broadcast::Sender;

use crate::protocol::ClientUpdate;

verus! {

#[verifier::external_type_specification]
#[verifier::external_body]
#[verifier::reject_recursive_types(T)]
pub struct ExSender<T>(Sender<T>);

/// Calls `tokio::sync::broadcast::Sender::receiver_count`, the number of
/// receivers subscribed at the moment of the call. Other tasks subscribe and
/// drop receivers at any time, so nothing is stated of the number.
#[verifier::external_body]
fn receiver_count<T>(sender: &Sender<T>) -> usize {
    sender.receiver_count()
}

/// Calls `tokio::sync::broadcast::Sender::send`. It fails when no receiver
/// is subscribed, and its error (`SendError`) holds the value back, which is
/// handed out here in its place; on success it returns the number of
/// subscribed receivers, so at least one.
#[verifier::external_body]
fn send<T>(sender: &Sender<T>, value: T) -> (r: Result<usize, T>)
    ensures
        r matches Ok(n) ==> n >= 1,
        r matches Err(back) ==> back == value,
{
    sender.send(value).map_err(|e| e.0)
}

/// What a broadcast hands to the channel, given how many receivers listen:
/// the batch itself, or nothing when no one listens.
pub fn plan_broadcast(receiver_count: usize, updates: Vec<ClientUpdate>) -> (p: Option<
    Vec<ClientUpdate>,
>)
    ensures
        (p is Some) == (receiver_count > 0),
        p matches Some(batch) ==> batch@ == updates@,
{
    if receiver_count > 0 {
        Some(updates)
    } else {
        None
    }
}

/// A batch that could not be broadcast because no receiver listened; it
/// holds the batch back.
#[derive(Debug)]
pub struct BroadcastError<T>(pub T);

/// What a broadcast of `updates` may return, given the number of receivers
/// it saw before sending: `Ok(0)` when no one listened (nothing is sent);
/// otherwise the batch is sent, and the result is the number of receivers it
/// went to, at least one, or, when they were gone by then, an error holding
/// the batch back.
pub open spec fn broadcast_outcome(
    receiver_count: usize,
    updates: Seq<ClientUpdate>,
    r: Result<usize, BroadcastError<Vec<ClientUpdate>>>,
) -> bool {
    if receiver_count == 0 {
        r matches Ok(n) && n == 0
    } else {
        match r {
            Ok(n) => n >= 1,
            Err(e) => e.0@ == updates,
        }
    }
}

/// Broadcasting batches of updates.
pub trait SenderUtils<T> {
    /// Broadcasts a batch of one update, as `broadcast_updates` does.
    fn broadcast_update(&self, update: T) -> Result<usize, BroadcastError<Vec<T>>>;

    /// Broadcasts a batch of updates if any receiver listens, and returns the
    /// number of receivers it went to; with no receiver it returns `Ok(0)`.
    /// When the receivers are gone by the time of sending, the batch comes
    /// back in the error.
    fn broadcast_updates(&self, updates: Vec<T>) -> Result<usize, BroadcastError<Vec<T>>>;
}

impl SenderUtils<ClientUpdate> for Sender<Vec<ClientUpdate>> {
    fn broadcast_update(&self, update: ClientUpdate) -> (r: Result<usize, BroadcastError<Vec<ClientUpdate>>>)
        ensures
            exists|receiver_count: usize| broadcast_outcome(receiver_count, seq![update], r),
    {
        let batch: Vec<ClientUpdate> = vec![update];
        assert(batch@ =~= seq![update]);
        self.broadcast_updates(batch)
    }

    fn broadcast_updates(&self, updates: Vec<ClientUpdate>) -> (r: Result<usize, BroadcastError<Vec<ClientUpdate>>>)
        ensures
            exists|receiver_count: usize| broadcast_outcome(receiver_count, updates@, r),
    {
        let ghost batch_view = updates@;
        let receivers = receiver_count(self);
        let r = match plan_broadcast(receivers, updates) {
            Some(batch) => match send(self, batch) {
                Ok(n) => Ok(n),
                Err(back) => Err(BroadcastError(back)),
            },
            None => Ok(0),
        };
        assert(broadcast_outcome(receivers, batch_view, r));
        r
    }
}

} // verus!
