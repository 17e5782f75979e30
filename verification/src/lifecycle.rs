//! The status-driven device lifecycle.
//!
//! The transport owns the guest-writable status byte for the device's whole
//! attached lifetime.  The guest drives it through
//! ACKNOWLEDGE → DRIVER → (feature negotiation) → FEATURES_OK → DRIVER_OK;
//! the write that completes this sequence is the one on which the transport
//! calls `activate()`, and it does so exactly once.  Any stage may fall to
//! FAILED; recovery requires a full reset back to the initial state.

use vstd::prelude::*;

verus! {

/// The guest has noticed the device.
pub const CONFIG_STATUS_ACKNOWLEDGE: u32 = 0x01;

/// The guest knows how to drive the device.
pub const CONFIG_STATUS_DRIVER: u32 = 0x02;

/// The driver is set up and ready to drive the device.
pub const CONFIG_STATUS_DRIVER_OK: u32 = 0x04;

/// Feature negotiation is complete.
pub const CONFIG_STATUS_FEATURES_OK: u32 = 0x08;

/// The guest has given up on the device.
pub const CONFIG_STATUS_FAILED: u32 = 0x80;

/// A status value on which the device may start operating: the full
/// ACKNOWLEDGE → DRIVER → FEATURES_OK → DRIVER_OK sequence has been driven
/// and the guest has not failed the device.
pub open spec fn ready_to_activate(bits: u32) -> bool {
    &&& bits & CONFIG_STATUS_ACKNOWLEDGE != 0
    &&& bits & CONFIG_STATUS_DRIVER != 0
    &&& bits & CONFIG_STATUS_FEATURES_OK != 0
    &&& bits & CONFIG_STATUS_DRIVER_OK != 0
    &&& bits & CONFIG_STATUS_FAILED == 0
}

/// The guest-visible status byte of one attached device, together with the
/// transport's one-shot activation latch.  Created at device construction,
/// mutated only by the thread handling guest configuration writes.
pub struct DeviceStatus {
    /// Current value of the status byte.
    pub bits: u32,
    /// Whether `activate()` has already been issued for this device.
    pub activated: bool,
}

impl DeviceStatus {
    /// A freshly constructed device: uninitialized status, not activated.
    pub fn new() -> (s: DeviceStatus)
        ensures
            s.bits == 0,
            !s.activated,
    {
        DeviceStatus { bits: 0, activated: false }
    }

    /// Record a guest write of the status byte.  Returns true exactly when
    /// this write is the one on which the transport must call `activate()`:
    /// the full initialization sequence is now complete and the device has
    /// not been activated before.
    pub fn write(&mut self, val: u32) -> (activate_now: bool)
        ensures
            final(self).bits == val,
            activate_now == (ready_to_activate(val) && !old(self).activated),
            final(self).activated == (old(self).activated || activate_now),
    {
        self.bits = val;
        let ready = val & CONFIG_STATUS_ACKNOWLEDGE != 0 && val & CONFIG_STATUS_DRIVER != 0 && val
            & CONFIG_STATUS_FEATURES_OK != 0 && val & CONFIG_STATUS_DRIVER_OK != 0 && val
            & CONFIG_STATUS_FAILED == 0;
        if ready && !self.activated {
            self.activated = true;
            true
        } else {
            false
        }
    }

    /// Return to the pre-initialization state: after a reset the device may
    /// be driven through the sequence, and activated, again.
    pub fn reset(&mut self)
        ensures
            final(self).bits == 0,
            !final(self).activated,
    {
        self.bits = 0;
        self.activated = false;
    }
}

/// How many times a run of guest status writes triggers activation, starting
/// from a given state of the activation latch.
pub open spec fn activation_count(activated: bool, writes: Seq<u32>) -> int
    decreases writes.len(),
{
    if writes.len() == 0 {
        0
    } else {
        let fire = ready_to_activate(writes[0]) && !activated;
        (if fire {
            1int
        } else {
            0int
        }) + activation_count(activated || fire, writes.subrange(1, writes.len() as int))
    }
}

/// Once activated, no later status write activates again.
pub proof fn lemma_no_reactivation(writes: Seq<u32>)
    ensures
        activation_count(true, writes) == 0,
    decreases writes.len(),
{
    if writes.len() > 0 {
        lemma_no_reactivation(writes.subrange(1, writes.len() as int));
    }
}

/// Across any run of guest status writes, a device is activated at most
/// once, and it is activated exactly once precisely when some write carries
/// the completed ACKNOWLEDGE → DRIVER → FEATURES_OK → DRIVER_OK sequence
/// without FAILED.  In particular a harness driving that sequence observes
/// exactly one `activate()` call.
pub proof fn lemma_exactly_one_activation(writes: Seq<u32>)
    ensures
        0 <= activation_count(false, writes) <= 1,
        activation_count(false, writes) == 1 <==> exists|i: int|
            0 <= i < writes.len() && ready_to_activate(writes[i]),
    decreases writes.len(),
{
    if writes.len() > 0 {
        let rest = writes.subrange(1, writes.len() as int);
        if ready_to_activate(writes[0]) {
            lemma_no_reactivation(rest);
        } else {
            lemma_exactly_one_activation(rest);
            if activation_count(false, rest) == 1 {
                let j = choose|j: int| 0 <= j < rest.len() && ready_to_activate(rest[j]);
                assert(writes[j + 1] == rest[j]);
            }
            if exists|i: int| 0 <= i < writes.len() && ready_to_activate(writes[i]) {
                let i = choose|i: int| 0 <= i < writes.len() && ready_to_activate(writes[i]);
                assert(rest[i - 1] == writes[i]);
            }
        }
    }
}

} // verus!
