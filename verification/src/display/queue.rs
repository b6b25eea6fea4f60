//! The render queue: a bounded first-in first-out channel of requests.
//!
//! The channel is `embassy_sync`'s. The engine owns it and is its only user,
//! so the channel needs no lock of its own; what it holds is known from what
//! was sent and received.

use vstd::prelude::*;
use embassy_sync::blocking_mutex::raw::NoopRawMutex;
use embassy_sync::channel::Channel;
use crate::display::display_matrix::QUEUE_CAPACITY;
use crate::display::request::RenderRequest;

verus! {

/// The queue of render requests: a channel of capacity 16. What the
/// channel holds is not looked into; the functions below say what sending
/// and receiving do to it.
#[verifier::external_body]
pub struct RenderQueue {
    channel: Channel<NoopRawMutex, RenderRequest, 16>,
}

/// The requests that wait in a queue, the next one first.
pub uninterp spec fn waiting(queue: RenderQueue) -> Seq<RenderRequest>;

impl RenderQueue {
    /// `embassy_sync::channel::Channel::new`: a channel in which nothing
    /// waits.
    #[verifier::external_body]
    pub(crate) fn new() -> (queue: RenderQueue)
        ensures
            waiting(queue) == Seq::<RenderRequest>::empty(),
    {
        RenderQueue { channel: Channel::new() }
    }

    /// `embassy_sync::channel::Channel::try_send`: the request is put behind
    /// the waiting ones if fewer than 16 wait; else the channel stays as it
    /// is.
    #[verifier::external_body]
    pub(crate) fn try_send(&mut self, request: RenderRequest) -> (sent: bool)
        ensures
            sent == (waiting(*old(self)).len() < QUEUE_CAPACITY),
            waiting(*final(self)) == (if sent {
                waiting(*old(self)).push(request)
            } else {
                waiting(*old(self))
            }),
    {
        self.channel.try_send(request).is_ok()
    }

    /// `embassy_sync::channel::Channel::len`: the number of requests that
    /// wait.
    #[verifier::external_body]
    pub(crate) fn len(&self) -> (n: usize)
        ensures
            n == waiting(*self).len(),
    {
        self.channel.len()
    }

    /// `embassy_sync::channel::Channel::try_receive`: the request that has
    /// waited longest leaves the channel, if any waits.
    #[verifier::external_body]
    pub(crate) fn try_receive(&mut self) -> (request: Option<RenderRequest>)
        ensures
            request == (if waiting(*old(self)).len() > 0 {
                Some(waiting(*old(self))[0])
            } else {
                None
            }),
            waiting(*final(self)) == (if waiting(*old(self)).len() > 0 {
                waiting(*old(self)).drop_first()
            } else {
                waiting(*old(self))
            }),
    {
        self.channel.try_receive().ok()
    }
}

} // verus!
