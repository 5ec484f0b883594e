//! The consumer channel: a bounded multi-producer/single-consumer queue
//! from `embassy_sync`, carrying detached event boxes to the application.
//!
//! The channel is the one piece of state the crate does not model itself;
//! its FIFO contents are named by [`channel_evts`] and every operation the
//! driver performs on it goes through a wrapper whose contract states what
//! `embassy_sync`'s source does to those contents.

use vstd::prelude::*;

use embassy_sync::blocking_mutex::raw::CriticalSectionRawMutex;
use embassy_sync::channel::Channel;
use embassy_sync::channel::TrySendError;

use crate::evt::EvtBox;

verus! {

/// The five-slot event channel between the interrupt handlers and the
/// consumer.  The inner queue is `embassy_sync`'s; its buffered messages
/// are named by [`channel_evts`].
#[verifier::external_body]
pub struct EvtChannel {
    inner: Channel<CriticalSectionRawMutex, EvtBox, 5>,
}

/// The events buffered in the consumer channel, oldest first.
pub uninterp spec fn channel_evts(ch: EvtChannel) -> Seq<EvtBox>;

/// Relies on `embassy_sync::channel::Channel::new`: a fresh channel buffers
/// nothing.
#[verifier::external_body]
pub fn chan_new() -> (ch: EvtChannel)
    ensures
        channel_evts(ch) == Seq::<EvtBox>::empty(),
{
    EvtChannel { inner: Channel::new() }
}

/// Relies on `embassy_sync::channel::Channel::try_send`: the message is
/// appended to the channel's FIFO queue, or handed back unchanged when all
/// five slots are taken.
#[verifier::external_body]
pub fn chan_try_send(ch: &mut EvtChannel, evt: EvtBox) -> (r: Option<EvtBox>)
    ensures
        channel_evts(*old(ch)).len() < 5 ==> channel_evts(*final(ch)) == channel_evts(
            *old(ch),
        ).push(evt) && r is None,
        channel_evts(*old(ch)).len() >= 5 ==> channel_evts(*final(ch)) == channel_evts(*old(ch))
            && r == Some(evt),
{
    match ch.inner.try_send(evt) {
        Ok(()) => None,
        Err(TrySendError::Full(evt)) => Some(evt),
    }
}

/// Relies on `embassy_sync::channel::Channel::try_receive`: the oldest
/// buffered message is popped from the channel's FIFO queue, or `None`
/// when the channel is empty.
#[verifier::external_body]
pub fn chan_try_receive(ch: &mut EvtChannel) -> (r: Option<EvtBox>)
    ensures
        channel_evts(*old(ch)).len() == 0 ==> channel_evts(*final(ch)) == channel_evts(*old(ch))
            && r is None,
        channel_evts(*old(ch)).len() > 0 ==> channel_evts(*final(ch)) == channel_evts(
            *old(ch),
        ).drop_first() && r == Some(channel_evts(*old(ch))[0]),
{
    match ch.inner.try_receive() {
        Ok(evt) => Some(evt),
        Err(_) => None,
    }
}

} // verus!
