//! Feature negotiation: pure bit arithmetic merging driver-offered 32-bit
//! feature windows against device-supported features into the accepted
//! 64-bit capability mask.
//!
//! A `FeatureWindow` is a 32-bit slice of a conceptual 64-bit capability
//! bitmap: page 0 holds bits 0..=31, page 1 holds bits 32..=63.  The window
//! exists only because the guest-visible feature register is 32 bits wide.

use vstd::prelude::*;

verus! {

/// True when bit `fbit` of the 64-bit feature bitmap is set.
pub open spec fn spec_has_feature(feature: u64, fbit: u32) -> bool {
    feature & (1u64 << fbit) != 0
}

/// Check if the bit of features is configured.
pub fn virtio_has_feature(feature: u64, fbit: u32) -> (r: bool)
    requires
        fbit < 64,
    ensures
        r == spec_has_feature(feature, fbit),
{
    feature & (1u64 << fbit) != 0
}

/// The 32-bit window of a 64-bit feature bitmap selected by `page`:
/// page 0 holds the low half, page 1 the high half, any other page is empty.
pub open spec fn feature_window(features: u64, page: u32) -> u32 {
    if page == 0 {
        (features & 0xffff_ffff) as u32
    } else if page == 1 {
        (features >> 32) as u32
    } else {
        0
    }
}

/// The 64-bit bitmap with the window at `page` replaced by `value`;
/// a write to a page other than 0 or 1 changes nothing.
pub open spec fn set_feature_window(features: u64, page: u32, value: u32) -> u64 {
    if page == 0 {
        (features & 0xffff_ffff_0000_0000) | (value as u64)
    } else if page == 1 {
        ((value as u64) << 32) | (features & 0xffff_ffff)
    } else {
        features
    }
}

/// One negotiation step: the freshly offered window `value` is narrowed to
/// the bits the device supports on that page (narrowing, never rejecting),
/// then combined with the previously accepted window of the *other* page
/// into the full 64-bit accepted mask.  Every page other than 0 is treated
/// as the high page, where the device supports nothing.
pub open spec fn checked_features(device: u64, driver: u64, page: u32, value: u32) -> u64 {
    let masked = value & feature_window(device, page);
    if page == 0 {
        ((feature_window(driver, 1) as u64) << 32) | (masked as u64)
    } else {
        ((masked as u64) << 32) | (feature_window(driver, 0) as u64)
    }
}

/// Extract the guest-visible 32-bit window at `page` from a 64-bit bitmap.
pub fn get_feature_window(features: u64, page: u32) -> (r: u32)
    ensures
        r == feature_window(features, page),
{
    if page == 0 {
        proof {
            assert(features & 0xffff_ffff <= 0xffff_ffff) by (bit_vector);
        }
        (features & 0xffff_ffff) as u32
    } else if page == 1 {
        proof {
            assert(features >> 32 <= 0xffff_ffff) by (bit_vector);
        }
        (features >> 32) as u32
    } else {
        0
    }
}

/// Store the guest-written 32-bit window at `page` into a 64-bit bitmap.
pub fn store_feature_window(features: u64, page: u32, value: u32) -> (r: u64)
    ensures
        r == set_feature_window(features, page, value),
{
    if page == 0 {
        (features & 0xffff_ffff_0000_0000) | (value as u64)
    } else if page == 1 {
        ((value as u64) << 32) | (features & 0xffff_ffff)
    } else {
        features
    }
}

/// The accepted window equals the offer masked by the device's window:
/// bits the device lacks are exactly the ones cleared, bits it has are
/// exactly the ones retained, and the other page keeps its prior value.
pub proof fn lemma_negotiation_narrows(device: u64, driver: u64, page: u32, value: u32)
    requires
        page == 0 || page == 1,
    ensures
        feature_window(checked_features(device, driver, page, value), page) == value
            & feature_window(device, page),
        feature_window(checked_features(device, driver, page, value), (1 - page) as u32)
            == feature_window(driver, (1 - page) as u32),
        forall|b: u32|
            b < 32 ==> ((value & feature_window(device, page)) & (1u32 << b) != 0 <==> (value & (
            1u32 << b) != 0 && feature_window(device, page) & (1u32 << b) != 0)),
{
    let dw = feature_window(device, page);
    let masked = value & dw;
    assert(forall|b: u32|
        b < 32 ==> ((value & dw) & (1u32 << b) != 0 <==> (value & (1u32 << b) != 0 && dw & (1u32
            << b) != 0))) by (bit_vector);
    if page == 0 {
        let hi = feature_window(driver, 1);
        assert(forall|m: u32, h: u32|
            #![trigger ((h as u64) << 32u64) | (m as u64)]
            (((((h as u64) << 32) | (m as u64)) & 0xffff_ffff) as u32 == m && ((((h as u64) << 32)
                | (m as u64)) >> 32) as u32 == h)) by (bit_vector);
        assert(((((hi as u64) << 32) | (masked as u64)) & 0xffff_ffff) as u32 == masked);
        assert(((((hi as u64) << 32) | (masked as u64)) >> 32) as u32 == hi);
    } else {
        let lo = feature_window(driver, 0);
        assert(forall|m: u32, l: u32|
            #![trigger ((m as u64) << 32u64) | (l as u64)]
            (((((m as u64) << 32) | (l as u64)) & 0xffff_ffff) as u32 == l && ((((m as u64) << 32)
                | (l as u64)) >> 32) as u32 == m)) by (bit_vector);
        assert(((((masked as u64) << 32) | (lo as u64)) & 0xffff_ffff) as u32 == lo);
        assert(((((masked as u64) << 32) | (lo as u64)) >> 32) as u32 == masked);
    }
}

/// Negotiating page 0 and page 1 in either order yields the same final
/// 64-bit mask, whatever was accepted before the two steps.
pub proof fn lemma_negotiation_order_independent(device: u64, driver: u64, v0: u32, v1: u32)
    ensures
        checked_features(device, checked_features(device, driver, 0, v0), 1, v1)
            == checked_features(device, checked_features(device, driver, 1, v1), 0, v0),
{
    let m0 = v0 & feature_window(device, 0);
    let m1 = v1 & feature_window(device, 1);
    let first0 = checked_features(device, driver, 0, v0);
    let first1 = checked_features(device, driver, 1, v1);
    assert(((((m1 as u64) << 32) | (((((feature_window(driver, 1) as u64) << 32) | (m0 as u64))
        & 0xffff_ffff) as u32 as u64))) == (((((((m1 as u64) << 32) | (feature_window(driver,
        0) as u64)) >> 32) as u32 as u64) << 32) | (m0 as u64))) by (bit_vector);
}

} // verus!
