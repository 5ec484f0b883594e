//! Model of the inter-processor communication controller.
//!
//! The hardware exposes one pending flag per channel and direction.  The
//! host raises a CPU1-to-CPU2 flag to hand work to the coprocessor, which
//! clears it when done; the coprocessor raises a CPU2-to-CPU1 flag to post
//! events, which the host clears after draining the matching queue.  The
//! register accesses themselves are synchronous, so the whole driver is a
//! pair of flag vectors with exact contracts.

use vstd::prelude::*;

use crate::channels::IPCC_CHANNEL_COUNT;

verus! {

/// Pending flags of the mailbox hardware, one per channel and direction.
pub struct Ipcc {
    /// CPU1-to-CPU2 flags, raised by the host: `c1_to_c2[ch - 1]` is true
    /// while channel `ch` carries work the coprocessor has not drained yet.
    pub c1_to_c2: Vec<bool>,
    /// CPU2-to-CPU1 flags, raised by the coprocessor: `c2_to_c1[ch - 1]` is
    /// true while channel `ch` carries traffic the host has not acknowledged.
    pub c2_to_c1: Vec<bool>,
}

impl Ipcc {
    /// A channel number is one of the six per direction.
    pub open spec fn valid_channel(ch: u8) -> bool {
        1 <= ch <= IPCC_CHANNEL_COUNT
    }

    /// Both flag vectors cover all six channels.
    pub open spec fn wf(self) -> bool {
        &&& self.c1_to_c2@.len() == IPCC_CHANNEL_COUNT
        &&& self.c2_to_c1@.len() == IPCC_CHANNEL_COUNT
    }

    /// Channel `ch` towards the coprocessor is raised and not yet drained.
    pub open spec fn tx_raised(self, ch: u8) -> bool {
        self.c1_to_c2@[ch as int - 1]
    }

    /// Channel `ch` from the coprocessor is pending acknowledgement.
    pub open spec fn rx_raised(self, ch: u8) -> bool {
        self.c2_to_c1@[ch as int - 1]
    }

    /// A driver with every flag quiet.
    pub fn new() -> (ipcc: Ipcc)
        ensures
            ipcc.wf(),
            forall|ch: u8| Ipcc::valid_channel(ch) ==> !#[trigger] ipcc.tx_raised(ch),
            forall|ch: u8| Ipcc::valid_channel(ch) ==> !#[trigger] ipcc.rx_raised(ch),
    {
        let mut c1_to_c2: Vec<bool> = Vec::new();
        let mut c2_to_c1: Vec<bool> = Vec::new();
        let mut k: usize = 0;
        while k < IPCC_CHANNEL_COUNT
            invariant
                k <= IPCC_CHANNEL_COUNT,
                c1_to_c2@.len() == k,
                c2_to_c1@.len() == k,
                forall|j: int| 0 <= j < k ==> !#[trigger] c1_to_c2@[j],
                forall|j: int| 0 <= j < k ==> !#[trigger] c2_to_c1@[j],
            decreases IPCC_CHANNEL_COUNT - k,
        {
            c1_to_c2.push(false);
            c2_to_c1.push(false);
            k = k + 1;
        }
        Ipcc { c1_to_c2, c2_to_c1 }
    }

    /// Reset every flag; the hardware starts quiet.
    pub fn init(&mut self)
        ensures
            final(self).wf(),
            forall|ch: u8| Ipcc::valid_channel(ch) ==> !#[trigger] final(self).tx_raised(ch),
            forall|ch: u8| Ipcc::valid_channel(ch) ==> !#[trigger] final(self).rx_raised(ch),
    {
        *self = Ipcc::new();
    }

    /// Raise channel `ch` towards the coprocessor.
    pub fn send(&mut self, ch: u8)
        requires
            old(self).wf(),
            Ipcc::valid_channel(ch),
        ensures
            final(self).wf(),
            final(self).c1_to_c2@ == old(self).c1_to_c2@.update(ch as int - 1, true),
            final(self).c2_to_c1 == old(self).c2_to_c1,
    {
        self.c1_to_c2.set((ch - 1) as usize, true);
    }

    /// Whether channel `ch` towards the coprocessor is free, that is, the
    /// coprocessor has drained whatever the host last raised on it.
    pub fn is_tx_pending(&self, ch: u8) -> (r: bool)
        requires
            self.wf(),
            Ipcc::valid_channel(ch),
        ensures
            r <==> !self.tx_raised(ch),
    {
        !self.c1_to_c2[(ch - 1) as usize]
    }

    /// Whether channel `ch` from the coprocessor awaits acknowledgement.
    pub fn is_rx_pending(&self, ch: u8) -> (r: bool)
        requires
            self.wf(),
            Ipcc::valid_channel(ch),
        ensures
            r <==> self.rx_raised(ch),
    {
        self.c2_to_c1[(ch - 1) as usize]
    }

    /// Acknowledge channel `ch` from the coprocessor.
    pub fn clear_rx(&mut self, ch: u8)
        requires
            old(self).wf(),
            Ipcc::valid_channel(ch),
        ensures
            final(self).wf(),
            final(self).c2_to_c1@ == old(self).c2_to_c1@.update(ch as int - 1, false),
            final(self).c1_to_c2 == old(self).c1_to_c2,
    {
        self.c2_to_c1.set((ch - 1) as usize, false);
    }

    /// The coprocessor raises channel `ch` towards the host.
    pub fn post_rx(&mut self, ch: u8)
        requires
            old(self).wf(),
            Ipcc::valid_channel(ch),
        ensures
            final(self).wf(),
            final(self).c2_to_c1@ == old(self).c2_to_c1@.update(ch as int - 1, true),
            final(self).c1_to_c2 == old(self).c1_to_c2,
    {
        self.c2_to_c1.set((ch - 1) as usize, true);
    }

    /// The coprocessor drains channel `ch`, leaving it free again.
    pub fn complete_tx(&mut self, ch: u8)
        requires
            old(self).wf(),
            Ipcc::valid_channel(ch),
        ensures
            final(self).wf(),
            final(self).c1_to_c2@ == old(self).c1_to_c2@.update(ch as int - 1, false),
            final(self).c2_to_c1 == old(self).c2_to_c1,
    {
        self.c1_to_c2.set((ch - 1) as usize, false);
    }
}

} // verus!
