//! Events raised by the user kit, and the channel that carries them to their
//! listeners.

use vstd::prelude::*;
use crossbeam_channel::{Receiver, Sender};
use crate::users::user_id::UserId;

verus! {

/// A user was registered.
pub struct AfterRegisterUserEvent {
    pub user_id: UserId,
}

/// The events of the user kit.
pub enum UsrEvents {
    AfterRegister(AfterRegisterUserEvent),
}

/// An event waiting to be sent.
pub struct UserEventsNotifier {
    event_type: UsrEvents,
}

impl UserEventsNotifier {
    /// The event this notifier holds.
    pub closed spec fn event_view(&self) -> UsrEvents {
        self.event_type
    }

    pub fn new(event_type: UsrEvents) -> (r: UserEventsNotifier)
        ensures
            r.event_view() == event_type,
    {
        UserEventsNotifier { event_type }
    }
}

#[verifier::external_type_specification]
#[verifier::external_body]
#[verifier::reject_recursive_types(T)]
pub struct ExSender<T>(Sender<T>);

#[verifier::external_type_specification]
#[verifier::external_body]
#[verifier::reject_recursive_types(T)]
pub struct ExReceiver<T>(Receiver<T>);

/// The channel a sending end belongs to.
pub uninterp spec fn sender_channel(s: Sender<AfterRegisterUserEvent>) -> int;

/// The channel a receiving end belongs to.
pub uninterp spec fn receiver_channel(r: Receiver<AfterRegisterUserEvent>) -> int;

/// An event announcing the user with this identifier was sent on this
/// channel.
pub uninterp spec fn was_sent(channel: int, user_id: Seq<char>) -> bool;

/// Calls `crossbeam_channel::unbounded`: a new channel of unbounded capacity,
/// as its sending and its receiving end. The contract claims that the two ends
/// belong to one channel.
#[verifier::external_body]
fn open_channel() -> (r: (Sender<AfterRegisterUserEvent>, Receiver<AfterRegisterUserEvent>))
    ensures
        sender_channel(r.0) == receiver_channel(r.1),
{
    crossbeam_channel::unbounded::<AfterRegisterUserEvent>()
}

/// Calls `Sender::send` on the container's sending end and tells whether it
/// succeeded. The contract claims that it does when the container's two ends
/// belong to one channel (`paired`): `send` on a channel of unbounded
/// capacity fails only once the channel is disconnected, that is, once every
/// receiving end is gone, and the container's own receiving end, borrowed
/// here, keeps the channel connected. It also claims that a successful send
/// put the event, with its user identifier, on the container's channel
/// (`was_sent`). What a receiving end then takes from the channel, and in
/// which order, is left unsaid: receiving happens outside the library.
#[verifier::external_body]
fn send_event(container: &UserEventsContainer, event: AfterRegisterUserEvent) -> (sent: bool)
    requires
        container.paired(),
    ensures
        sent,
        sent ==> was_sent(container.channel(), event.user_id.value@),
{
    container.sender.send(event).is_ok()
}

/// `Sender::clone` of `crossbeam_channel`. The contract claims that the clone
/// is the same value as the original: a sending end holds only a pointer to
/// the shared channel, and `clone` copies that pointer (after counting one
/// more sender in the channel).
pub assume_specification<T>[ <Sender<T> as Clone>::clone ](s: &Sender<T>) -> (r: Sender<T>)
    ensures
        r == *s,
;

/// `Receiver::clone` of `crossbeam_channel`. The contract claims that the
/// clone is the same value as the original: a receiving end holds a pointer to
/// the shared channel (or, for the channels that only deliver a time, a shared
/// pointer to that state, or nothing), and `clone` copies it (after counting
/// one more receiver in the channel).
pub assume_specification<T>[ <Receiver<T> as Clone>::clone ](r: &Receiver<T>) -> (c: Receiver<T>)
    ensures
        c == *r,
;

/// The channel of user events: the kit sends, the listeners receive.
#[derive(Clone)]
pub struct UserEventsContainer {
    sender: Sender<AfterRegisterUserEvent>,
    receiver: Receiver<AfterRegisterUserEvent>,
    pub test_data: String,
}

impl UserEventsContainer {
    /// The container's two ends belong to one channel, so what it sends its
    /// listeners receive.
    pub closed spec fn paired(&self) -> bool {
        sender_channel(self.sender) == receiver_channel(self.receiver)
    }

    /// The channel the container sends to.
    pub closed spec fn channel(&self) -> int {
        sender_channel(self.sender)
    }

    /// The text of the `test_data` field.
    pub closed spec fn test_data_view(&self) -> Seq<char> {
        self.test_data@
    }

    pub fn new() -> (r: UserEventsContainer)
        ensures
            r.paired(),
            r.test_data_view() == "Not empty string"@,
    {
        let (sender, receiver) = open_channel();
        UserEventsContainer { sender, receiver, test_data: String::from_str("Not empty string") }
    }

    /// The container's own receiving end.
    pub closed spec fn receiver_view(&self) -> Receiver<AfterRegisterUserEvent> {
        self.receiver
    }

    /// Sends an event to the listeners on the container's channel; tells
    /// whether it was sent, which it always is: the container keeps its
    /// channel connected.
    pub fn notify(&self, event: UsrEvents) -> (sent: bool)
        requires
            self.paired(),
        ensures
            sent,
            event matches UsrEvents::AfterRegister(e) ==> was_sent(self.channel(), e.user_id.value@),
    {
        match event {
            UsrEvents::AfterRegister(after_register) => send_event(self, after_register),
        }
    }

    /// A receiving end for a listener: the container's own receiving end, on
    /// the channel the container sends to.
    pub fn receiver(&self) -> (r: Receiver<AfterRegisterUserEvent>)
        ensures
            r == self.receiver_view(),
            self.paired() ==> receiver_channel(r) == self.channel(),
    {
        self.receiver.clone()
    }
}

} // verus!
