use vstd::prelude::*;
use crate::error::RibosomeError;
use std::sync::mpsc::{Receiver, Sender};

verus! {

#[verifier::external_type_specification]
#[verifier::external_body]
#[verifier::reject_recursive_types(T)]
pub struct ExSender<T>(Sender<T>);

#[verifier::external_type_specification]
#[verifier::external_body]
#[verifier::reject_recursive_types(T)]
pub struct ExReceiver<T>(Receiver<T>);

/// An entry handed to the state store by `commit`.
///
/// The guest's packing of an entry into memory is not settled yet, so an
/// entry carries the two raw `i32` arguments of the call as the guest passed
/// them, uninterpreted.
#[derive(Debug, Clone, Copy, PartialEq, Eq, Structural)]
pub struct Entry {
    pub entry_type: i32,
    pub content: i32,
}

/// A request for a state mutation, sent to the state store's worker. The
/// token ties it to the observer registered for it.
#[derive(Debug, Clone, Copy, PartialEq, Eq, Structural)]
pub enum ActionMessage {
    Commit { token: u64, entry: Entry },
}

impl ActionMessage {
    pub open spec fn spec_token(self) -> u64 {
        match self {
            ActionMessage::Commit { token, .. } => token,
        }
    }

    /// The correlation token of this request.
    pub fn token(&self) -> (r: u64)
        ensures
            r == self.spec_token(),
    {
        match self {
            ActionMessage::Commit { token, .. } => *token,
        }
    }
}

/// A registration that the state store signals once the action with the
/// same token has been applied.
///
/// The observer also carries the action itself: tokens count the commits of
/// one call, so two calls running side by side may both use a token, and the
/// action tells the store which mutation the observer waits on.
pub struct Observer {
    pub token: u64,
    pub action: ActionMessage,
    pub applied: Sender<()>,
}

/// Relies on `Sender::send`: it fails only where the receiving end is gone,
/// which nothing here can know in advance; `true` when the value was sent.
#[verifier::external_body]
fn send<T>(channel: &Sender<T>, value: T) -> (r: bool) {
    channel.send(value).is_ok()
}

/// Relies on `Sender::clone`: a further sender into the same channel.
#[verifier::external_body]
pub(crate) fn clone_sender<T>(channel: &Sender<T>) -> (r: Sender<T>) {
    channel.clone()
}

/// Relies on `std::sync::mpsc::channel`: a fresh connected pair.
#[verifier::external_body]
fn completion_channel() -> (r: (Sender<()>, Receiver<()>)) {
    std::sync::mpsc::channel()
}

/// Relies on `Receiver::recv`: blocks until a signal arrives (`true`) or
/// every sender is gone (`false`).
#[verifier::external_body]
fn wait_signal(signal: &Receiver<()>) -> (r: bool) {
    signal.recv().is_ok()
}

/// The sending end of a channel, with a record of every value that was
/// handed over successfully, in order.
#[verifier::reject_recursive_types(T)]
pub struct Outbox<T> {
    channel: Sender<T>,
    sent: Ghost<Seq<T>>,
}

impl<T> Outbox<T> {
    /// The values sent so far through this outbox, in order.
    pub closed spec fn sent(&self) -> Seq<T> {
        self.sent@
    }

    /// An outbox on a clone of `channel`, with nothing sent yet.
    pub fn new(channel: &Sender<T>) -> (r: Self)
        ensures
            r.sent() == Seq::<T>::empty(),
    {
        Outbox { channel: clone_sender(channel), sent: Ghost(Seq::empty()) }
    }

    /// Sends `value`; `true` when it was handed over, and then recorded.
    pub fn send(&mut self, value: T) -> (r: bool)
        ensures
            r ==> final(self).sent() == old(self).sent().push(value),
            !r ==> final(self).sent() == old(self).sent(),
    {
        let ghost v = value;
        let ok = send(&self.channel, value);
        if ok {
            self.sent = Ghost(self.sent@.push(v));
        }
        ok
    }
}

/// The outcome of a dispatch from whether the action was sent, whether the
/// observer was registered, and whether the store signalled it.
pub fn dispatch_outcome(action_sent: bool, observer_sent: bool, applied: bool) -> (r: Result<(), RibosomeError>)
    ensures
        action_sent && observer_sent && applied ==> r is Ok,
        !(action_sent && observer_sent && applied) ==> r matches Err(RibosomeError::DispatchChannelClosed),
{
    if action_sent && observer_sent && applied {
        Ok(())
    } else {
        Err(RibosomeError::DispatchChannelClosed)
    }
}

/// Sends `action` to the state store, registers an observer for it, and
/// blocks until the store signals that it was applied.
///
/// There is no timeout: a store that keeps the observer and never signals it
/// keeps the call waiting. A store that drops the observer unsignalled, or a
/// channel whose receiving end is gone, ends the wait with
/// `DispatchChannelClosed`; nothing is dropped silently.
pub fn dispatch_action_and_wait(
    actions: &mut Outbox<ActionMessage>,
    observers: &mut Outbox<Observer>,
    action: ActionMessage,
) -> (r: Result<(), RibosomeError>)
    ensures
        r is Ok ==> {
            &&& final(actions).sent() == old(actions).sent().push(action)
            &&& final(observers).sent().len() == old(observers).sent().len() + 1
            &&& final(observers).sent().drop_last() == old(observers).sent()
            &&& final(observers).sent().last().action == action
            &&& final(observers).sent().last().token == action.spec_token()
        },
        r is Err ==> {
            &&& r matches Err(RibosomeError::DispatchChannelClosed)
            &&& final(actions).sent() == old(actions).sent()
                || final(actions).sent() == old(actions).sent().push(action)
            &&& final(observers).sent().len() <= old(observers).sent().len() + 1
        },
{
    let token = action.token();
    if !actions.send(action) {
        return dispatch_outcome(false, false, false);
    }
    let (applied, signal) = completion_channel();
    let ghost before = observers.sent();
    if !observers.send(Observer { token, action, applied }) {
        return dispatch_outcome(true, false, false);
    }
    assert(observers.sent().drop_last() =~= before);
    let signalled = wait_signal(&signal);
    dispatch_outcome(true, true, signalled)
}

} // verus!
