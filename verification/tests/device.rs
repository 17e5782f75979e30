use std::sync::Arc;

use vmm_core::device::{
    read_config_bytes, AddressSpaceHandle, InterruptHandle, QueueHandle, StubDevice, VirtioDevice,
    VirtioError, VirtioInterruptType, VirtioNetHdr, VIRTIO_TYPE_NET, VIRTIO_TYPE_RNG,
};
use vmm_core::features::{get_feature_window, store_feature_window, virtio_has_feature};
use vmm_core::lifecycle::{
    DeviceStatus, CONFIG_STATUS_ACKNOWLEDGE, CONFIG_STATUS_DRIVER, CONFIG_STATUS_DRIVER_OK,
    CONFIG_STATUS_FAILED, CONFIG_STATUS_FEATURES_OK,
};
use vmm_sys_util::eventfd::EventFd;

fn stub(device_features: u64) -> StubDevice {
    StubDevice::new(VIRTIO_TYPE_RNG, device_features, vec![0u8; 16])
}

#[test]
fn feature_bit_test() {
    assert!(virtio_has_feature(0x221, 0));
    assert!(virtio_has_feature(0x221, 5));
    assert!(virtio_has_feature(0x221, 9));
    assert!(!virtio_has_feature(0x221, 1));
    assert!(virtio_has_feature(1u64 << 63, 63));
    assert!(!virtio_has_feature(0x221, 63));
}

#[test]
fn feature_windows() {
    let features: u64 = 0xdead_beef_0000_0221;
    assert_eq!(get_feature_window(features, 0), 0x0000_0221);
    assert_eq!(get_feature_window(features, 1), 0xdead_beef);
    assert_eq!(get_feature_window(features, 2), 0);
    assert_eq!(store_feature_window(0, 0, 0x221), 0x221);
    assert_eq!(store_feature_window(0x221, 1, 0xdead_beef), 0xdead_beef_0000_0221);
    assert_eq!(store_feature_window(0x221, 7, 0xffff_ffff), 0x221);
}

// Device offers bits {0,5,9} on page 0; the driver offers {0,5,9,20}: the
// accepted mask keeps exactly the offered bits the device has and drops
// bit 20, silently.
#[test]
fn negotiation_narrows_offered_features() {
    let mut dev = stub(0x221);
    let accepted = dev.checked_driver_features(0, 0x0010_0221);
    assert_eq!(accepted, 0x221);
    // bits the device has are retained
    assert!(virtio_has_feature(accepted, 0));
    assert!(virtio_has_feature(accepted, 5));
    assert!(virtio_has_feature(accepted, 9));
    // the absent bit is dropped
    assert!(!virtio_has_feature(accepted, 20));
}

// Negotiating the two pages in either order accepts the same 64-bit mask.
#[test]
fn negotiation_order_does_not_matter() {
    let device_features: u64 = 0x8000_0001_0000_0221;
    let v0: u32 = 0x0010_0221;
    let v1: u32 = 0x8000_0001;

    let mut a = stub(device_features);
    let first = a.checked_driver_features(0, v0);
    a.set_driver_features(0, v0);
    assert_eq!(get_feature_window(first, 0), a.get_driver_features(0));
    let low_then_high = a.checked_driver_features(1, v1);

    let mut b = stub(device_features);
    b.set_driver_features(1, v1);
    let high_then_low = b.checked_driver_features(0, v0);

    assert_eq!(low_then_high, high_then_low);
    assert_eq!(low_then_high, 0x8000_0001_0000_0221);
}

#[test]
fn driver_features_are_stored_masked() {
    let mut dev = stub(0x221);
    dev.set_driver_features(0, 0xffff_ffff);
    assert_eq!(dev.get_driver_features(0), 0x221);
    assert_eq!(dev.get_driver_features(1), 0);
    // a page other than 0 or 1 selects no window
    dev.set_driver_features(9, 0xffff_ffff);
    assert_eq!(dev.get_driver_features(0), 0x221);
    assert_eq!(dev.get_driver_features(1), 0);
}

// A read that runs past the end of a 16-byte configuration must fail, not
// return truncated bytes.
#[test]
fn config_read_out_of_bounds_fails() {
    let dev = stub(0);
    let mut buf = vec![0u8; 4];
    let r = dev.read_config(100, &mut buf);
    assert!(matches!(
        r,
        Err(VirtioError::ConfigAccessOutOfBounds {
            offset: 100,
            len: 4,
            config_len: 16
        })
    ));
    // an in-bounds read returns exactly the addressed bytes
    let mut dev = stub(0);
    let data: Vec<u8> = (0u8..16).collect();
    assert!(dev.write_config(0, &data).is_ok());
    let mut buf = vec![0u8; 4];
    assert!(dev.read_config(12, &mut buf).is_ok());
    assert_eq!(buf, vec![12, 13, 14, 15]);
    // reading right at the boundary succeeds; one past it fails
    let mut buf = vec![0u8; 16];
    assert!(dev.read_config(0, &mut buf).is_ok());
    let mut buf = vec![0u8; 17];
    assert!(dev.read_config(0, &mut buf).is_err());
}

#[test]
fn config_write_out_of_bounds_changes_nothing() {
    let mut dev = stub(0);
    let r = dev.write_config(15, &vec![1, 2]);
    assert!(r.is_err());
    let mut buf = vec![0u8; 16];
    assert!(dev.read_config(0, &mut buf).is_ok());
    assert_eq!(buf, vec![0u8; 16]);
}

#[test]
fn read_config_bytes_leaves_buffer_on_failure() {
    let config: Vec<u8> = (0u8..8).collect();
    let mut buf = vec![9u8; 4];
    assert!(read_config_bytes(&config, 6, &mut buf).is_err());
    assert_eq!(buf, vec![9u8; 4]);
    assert!(read_config_bytes(&config, 4, &mut buf).is_ok());
    assert_eq!(buf, vec![4, 5, 6, 7]);
}

// A variant that never overrides deactivate fails naming its own device
// type.
#[test]
fn default_deactivate_names_the_device_type() {
    let mut dev = stub(0);
    assert_eq!(dev.device_type(), VIRTIO_TYPE_RNG);
    let r = dev.deactivate();
    assert!(matches!(r, Err(VirtioError::DeactivateNotSupported(t)) if t == VIRTIO_TYPE_RNG));
    assert_eq!(
        r.unwrap_err().message(),
        "deactivate is not supported, virtio dev type is 4"
    );
    let mut net = StubDevice::new(VIRTIO_TYPE_NET, 0, vec![]);
    assert!(matches!(
        net.deactivate(),
        Err(VirtioError::DeactivateNotSupported(t)) if t == VIRTIO_TYPE_NET
    ));
}

#[test]
fn default_optional_operations() {
    let mut dev = stub(0);
    assert!(matches!(
        dev.unrealize(),
        Err(VirtioError::UnrealizeNotImplemented)
    ));
    assert_eq!(
        VirtioError::UnrealizeNotImplemented.message(),
        "unrealize of the virtio device is not implemented"
    );
    assert_eq!(
        VirtioError::ConfigAccessOutOfBounds {
            offset: 100,
            len: 4,
            config_len: 16
        }
        .message(),
        "config access out of bounds: offset 100 len 4 config length 16"
    );
    assert!(matches!(
        dev.update_config::<vmm_core::netcfg::NetworkInterfaceConfig>(None),
        Err(VirtioError::UpdateConfigUnsupported)
    ));
    assert!(dev.set_guest_notifiers(&Vec::new()).is_ok());
    assert!(!dev.has_control_queue());
    assert_eq!(dev.queue_num(), 1);
    assert_eq!(dev.queue_size(), 256);
}

#[test]
fn reset_clears_negotiated_state() {
    let mut dev = stub(0x221);
    dev.set_driver_features(0, 0x221);
    assert_eq!(dev.get_driver_features(0), 0x221);
    assert!(dev.reset().is_ok());
    assert_eq!(dev.get_driver_features(0), 0);
    assert!(!dev.activated);
}

fn activate_resources() -> (Arc<AddressSpaceHandle>, Arc<InterruptHandle>, Vec<Arc<QueueHandle>>, Vec<EventFd>) {
    (
        Arc::new(AddressSpaceHandle { size: 1 << 20 }),
        Arc::new(InterruptHandle {
            notifier: EventFd::new(0).unwrap(),
        }),
        vec![Arc::new(QueueHandle { queue_size: 256 })],
        vec![EventFd::new(0).unwrap()],
    )
}

// A transport harness driving ACKNOWLEDGE -> DRIVER -> FEATURES_OK ->
// DRIVER_OK observes exactly one activate() call, and none before the
// sequence is complete.
#[test]
fn status_sequence_activates_exactly_once() {
    let mut dev = stub(0x221);
    assert!(dev.realize().is_ok());
    assert!(dev.realized);
    let mut status = DeviceStatus::new();
    let mut activations = 0;

    let ack = CONFIG_STATUS_ACKNOWLEDGE;
    let drv = ack | CONFIG_STATUS_DRIVER;
    let feat = drv | CONFIG_STATUS_FEATURES_OK;
    let ok = feat | CONFIG_STATUS_DRIVER_OK;
    for val in [ack, drv, feat, ok, ok] {
        if status.write(val) {
            let (mem, intr, queues, evts) = activate_resources();
            assert!(dev.activate(mem, intr, &queues, evts).is_ok());
            activations += 1;
        }
    }
    assert_eq!(activations, 1);
    assert!(dev.activated);

    // a write carrying FAILED never activates
    let mut status = DeviceStatus::new();
    assert!(!status.write(ack));
    assert!(!status.write(ok | CONFIG_STATUS_FAILED));
    // the first completed sequence does, and only once
    assert!(status.write(ok));
    assert!(!status.write(ok));
    // after a reset the device may be activated again
    status.reset();
    assert!(status.write(ok));
}

#[test]
fn incomplete_status_sequences_do_not_activate() {
    let mut status = DeviceStatus::new();
    assert!(!status.write(CONFIG_STATUS_ACKNOWLEDGE));
    assert!(!status.write(
        CONFIG_STATUS_ACKNOWLEDGE | CONFIG_STATUS_DRIVER | CONFIG_STATUS_FEATURES_OK
    ));
    assert!(!status.write(CONFIG_STATUS_DRIVER_OK));
    assert!(status.write(
        CONFIG_STATUS_ACKNOWLEDGE
            | CONFIG_STATUS_DRIVER
            | CONFIG_STATUS_FEATURES_OK
            | CONFIG_STATUS_DRIVER_OK
    ));
}

#[test]
fn net_header_default_is_zero() {
    let hdr = VirtioNetHdr::default();
    assert_eq!(
        hdr,
        VirtioNetHdr {
            flags: 0,
            gso_type: 0,
            hdr_len: 0,
            gso_size: 0,
            csum_start: 0,
            csum_offset: 0,
            num_buffers: 0
        }
    );
    assert_eq!(VirtioInterruptType::Config, VirtioInterruptType::Config);
    assert_ne!(VirtioInterruptType::Config, VirtioInterruptType::Vring);
}
