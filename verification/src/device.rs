//! The uniform protocol every paravirtualized device backend implements, so
//! that a generic guest-facing transport can drive any of them identically:
//! realize/activate/deactivate/reset, status-driven feature negotiation, and
//! byte-addressed configuration-space access.

use std::sync::Arc;
use vstd::prelude::*;

use crate::features::{
    checked_features, feature_window, get_feature_window, set_feature_window,
    store_feature_window,
};
use crate::netcfg::ConfigCheck;
use crate::strutil::{dec_string, u64_to_string};

verus! {

/// Identifier of the network device in the fixed device-type registry.
pub const VIRTIO_TYPE_NET: u32 = 1;

/// Identifier of the block device.
pub const VIRTIO_TYPE_BLOCK: u32 = 2;

/// Identifier of the console device.
pub const VIRTIO_TYPE_CONSOLE: u32 = 3;

/// Identifier of the entropy device.
pub const VIRTIO_TYPE_RNG: u32 = 4;

/// Identifier of the memory balloon device.
pub const VIRTIO_TYPE_BALLOON: u32 = 5;

/// Identifier of the SCSI host device.
pub const VIRTIO_TYPE_SCSI: u32 = 8;

/// Identifier of the graphics device.
pub const VIRTIO_TYPE_GPU: u32 = 16;

/// Identifier of the socket device.
pub const VIRTIO_TYPE_VSOCK: u32 = 19;

/// Identifier of the shared-filesystem device.
pub const VIRTIO_TYPE_FS: u32 = 26;

/// Interrupt status bit: a used-buffer notification.
pub const VIRTIO_MMIO_INT_VRING: u32 = 0x01;

/// Interrupt status bit: a configuration-change notification.
pub const VIRTIO_MMIO_INT_CONFIG: u32 = 0x02;

/// The offset between the notify register's address and the base MMIO
/// address; the guest uses the notify register to notify the host.
pub const NOTIFY_REG_OFFSET: u32 = 0x50;

/// The driver can use descriptors with the indirect-descriptor flag set.
pub const VIRTIO_F_RING_INDIRECT_DESC: u32 = 28;

/// The used_event and avail_event fields are in use.
pub const VIRTIO_F_RING_EVENT_IDX: u32 = 29;

/// The device complies with the current specification of the protocol.
pub const VIRTIO_F_VERSION_1: u32 = 32;

/// Device access to memory may be limited and/or translated.
pub const VIRTIO_F_ACCESS_PLATFORM: u32 = 33;

/// The packed virtqueue layout is supported.
pub const VIRTIO_F_RING_PACKED: u32 = 34;

/// Device handles packets with partial checksum.
pub const VIRTIO_NET_F_CSUM: u32 = 0;

/// Driver handles packets with partial checksum.
pub const VIRTIO_NET_F_GUEST_CSUM: u32 = 1;

/// Device has given MAC address.
pub const VIRTIO_NET_F_MAC: u32 = 5;

/// Driver can receive TSOv4.
pub const VIRTIO_NET_F_GUEST_TSO4: u32 = 7;

/// Driver can receive TSOv6.
pub const VIRTIO_NET_F_GUEST_TSO6: u32 = 8;

/// Driver can receive TSO with ECN.
pub const VIRTIO_NET_F_GUEST_ECN: u32 = 9;

/// Driver can receive UFO.
pub const VIRTIO_NET_F_GUEST_UFO: u32 = 10;

/// Device can receive TSOv4.
pub const VIRTIO_NET_F_HOST_TSO4: u32 = 11;

/// Device can receive UFO.
pub const VIRTIO_NET_F_HOST_UFO: u32 = 14;

/// Device can merge receive buffers.
pub const VIRTIO_NET_F_MRG_RXBUF: u32 = 15;

/// Control channel is available.
pub const VIRTIO_NET_F_CTRL_VQ: u32 = 17;

/// Device supports multi queue with automatic receive steering.
pub const VIRTIO_NET_F_MQ: u32 = 22;

/// Set MAC address through the control channel.
pub const VIRTIO_NET_F_CTRL_MAC_ADDR: u32 = 23;

/// Configuration cols and rows are valid.
pub const VIRTIO_CONSOLE_F_SIZE: u64 = 0;

/// Maximum size of any single segment is in size_max.
pub const VIRTIO_BLK_F_SIZE_MAX: u32 = 1;

/// Maximum number of segments in a request is in seg_max.
pub const VIRTIO_BLK_F_SEG_MAX: u32 = 2;

/// Legacy geometry available.
pub const VIRTIO_BLK_F_GEOMETRY: u32 = 4;

/// Device is read-only.
pub const VIRTIO_BLK_F_RO: u32 = 5;

/// Block size of disk is available.
pub const VIRTIO_BLK_F_BLK_SIZE: u32 = 6;

/// Cache flush command support.
pub const VIRTIO_BLK_F_FLUSH: u32 = 9;

/// Topology information is available.
pub const VIRTIO_BLK_F_TOPOLOGY: u32 = 10;

/// Support more than one virtqueue.
pub const VIRTIO_BLK_F_MQ: u32 = 12;

/// Discarding unused sectors is supported.
pub const VIRTIO_BLK_F_DISCARD: u32 = 13;

/// Writing zeroes is supported.
pub const VIRTIO_BLK_F_WRITE_ZEROES: u32 = 14;

/// The device sets multi-queue ok status values to the driver.
pub const VIRTIO_NET_OK: u8 = 0;

/// The driver configures the class before enabling a virtqueue.
pub const VIRTIO_NET_CTRL_MQ: u16 = 4;

/// The driver configures the command before enabling a virtqueue.
pub const VIRTIO_NET_CTRL_MQ_VQ_PAIRS_SET: u16 = 0;

/// The minimum pairs of multiple queue.
pub const VIRTIO_NET_CTRL_MQ_VQ_PAIRS_MIN: u16 = 1;

/// The maximum pairs of multiple queue.
pub const VIRTIO_NET_CTRL_MQ_VQ_PAIRS_MAX: u16 = 0x8000;

/// A single request can include both device-readable and device-writable
/// buffers.
pub const VIRTIO_SCSI_F_INOUT: u32 = 0;

/// Hot-plug and hot-unplug events are reported for targets on the bus.
pub const VIRTIO_SCSI_F_HOTPLUG: u32 = 1;

/// Changes to LUN parameters are reported as events.
pub const VIRTIO_SCSI_F_CHANGE: u32 = 2;

/// The extended fields for T10 protection information are included in the
/// request header.
pub const VIRTIO_SCSI_F_T10_PI: u32 = 3;

/// Block request type: read.
pub const VIRTIO_BLK_T_IN: u32 = 0;

/// Block request type: write.
pub const VIRTIO_BLK_T_OUT: u32 = 1;

/// Block request type: flush.
pub const VIRTIO_BLK_T_FLUSH: u32 = 4;

/// Block request type: device id.
pub const VIRTIO_BLK_T_GET_ID: u32 = 8;

/// Length of the block device id.
pub const VIRTIO_BLK_ID_BYTES: u32 = 20;

/// Block request status: success.
pub const VIRTIO_BLK_S_OK: u32 = 0;

/// Block request status: input/output error.
pub const VIRTIO_BLK_S_IOERR: u32 = 1;

/// Failure of a device-lifecycle operation.
#[derive(Debug, Clone, PartialEq, Eq, Structural)]
pub enum VirtioError {
    /// Unrealize of the virtio device is not implemented.
    UnrealizeNotImplemented,
    /// The variant never supports deactivation; carries its device type.
    DeactivateNotSupported(u32),
    /// The variant does not support updating its configuration.
    UpdateConfigUnsupported,
    /// A configuration-space access runs past the end of the structure;
    /// carries the offset, the access length and the structure's length.
    ConfigAccessOutOfBounds { offset: u64, len: usize, config_len: usize },
}

impl VirtioError {
    /// A description of the failure; the messages of unsupported operations
    /// name the device's registry type in decimal, and an out-of-bounds
    /// access names its offset and lengths.
    pub fn message(&self) -> (r: String)
        ensures
            *self matches VirtioError::UnrealizeNotImplemented ==> r@
                == "unrealize of the virtio device is not implemented"@,
            *self matches VirtioError::DeactivateNotSupported(t) ==> r@
                == "deactivate is not supported, virtio dev type is "@ + dec_string(t as int),
            *self matches VirtioError::UpdateConfigUnsupported ==> r@
                == "unsupported to update configuration"@,
            *self matches VirtioError::ConfigAccessOutOfBounds { offset, len, config_len } ==> r@
                == "config access out of bounds: offset "@ + dec_string(offset as int) + " len "@
                + dec_string(len as int) + " config length "@ + dec_string(config_len as int),
    {
        match self {
            VirtioError::UnrealizeNotImplemented => String::from_str(
                "unrealize of the virtio device is not implemented",
            ),
            VirtioError::DeactivateNotSupported(t) => {
                let mut s = String::from_str("deactivate is not supported, virtio dev type is ");
                let d = u64_to_string(*t as u64);
                s.append(d.as_str());
                s
            },
            VirtioError::UpdateConfigUnsupported => String::from_str(
                "unsupported to update configuration",
            ),
            VirtioError::ConfigAccessOutOfBounds { offset, len, config_len } => {
                let mut s = String::from_str("config access out of bounds: offset ");
                let d = u64_to_string(*offset);
                s.append(d.as_str());
                s.append(" len ");
                let d = u64_to_string(*len as u64);
                s.append(d.as_str());
                s.append(" config length ");
                let d = u64_to_string(*config_len as u64);
                s.append(d.as_str());
                s
            },
        }
    }
}

/// Packet header preceding every exchanged network buffer.
#[derive(Debug, Clone, Copy, PartialEq, Eq, Structural)]
pub struct VirtioNetHdr {
    pub flags: u8,
    pub gso_type: u8,
    pub hdr_len: u16,
    pub gso_size: u16,
    pub csum_start: u16,
    pub csum_offset: u16,
    pub num_buffers: u16,
}

impl Default for VirtioNetHdr {
    /// An all-zero header.
    fn default() -> (h: VirtioNetHdr)
        ensures
            h == (VirtioNetHdr {
                flags: 0,
                gso_type: 0,
                hdr_len: 0,
                gso_size: 0,
                csum_start: 0,
                csum_offset: 0,
                num_buffers: 0,
            }),
    {
        VirtioNetHdr {
            flags: 0,
            gso_type: 0,
            hdr_len: 0,
            gso_size: 0,
            csum_start: 0,
            csum_offset: 0,
            num_buffers: 0,
        }
    }
}

/// The reason an interrupt is raised towards the guest: a configuration
/// change, or a used-buffer notification on some virtqueue.
#[derive(Debug, Clone, Copy, PartialEq, Eq, Structural)]
pub enum VirtioInterruptType {
    Config,
    Vring,
}

/// Host notification handle.  Relies on vmm_sys_util::eventfd::EventFd, a
/// plain wrapper around one host event file descriptor; this crate only
/// carries such handles between the transport and the device backends.
#[verifier::external_type_specification]
#[verifier::external_body]
pub struct ExEventFd(vmm_sys_util::eventfd::EventFd);

/// Shared handle to the guest address space.  The space itself is an
/// external collaborator; a device backend never owns guest memory, it only
/// holds this handle from `activate()` until `deactivate()`.
pub struct AddressSpaceHandle {
    /// Size in bytes of the guest memory the space maps.
    pub size: u64,
}

/// Shared handle to one virtqueue, as validated and sized by the transport
/// before activation.  The ring itself is an external collaborator; the
/// handle records the topology the device was activated with.
pub struct QueueHandle {
    /// Number of ring entries of this queue.
    pub queue_size: u16,
}

/// How to signal the guest: the transport pairs this notifier with an
/// interrupt-reason tag ([`VirtioInterruptType`]) when it raises the
/// interrupt; the device holds the handle while operating.
pub struct InterruptHandle {
    /// Event the host writes to inject the interrupt.
    pub notifier: vmm_sys_util::eventfd::EventFd,
}

/// The bytes `[offset, offset + data.len())` of a configuration image
/// replaced by `data`, everything else unchanged.
pub open spec fn spec_write_range(config: Seq<u8>, offset: int, data: Seq<u8>) -> Seq<u8> {
    Seq::new(
        config.len(),
        |i: int|
            if offset <= i < offset + data.len() {
                data[i - offset]
            } else {
                config[i]
            },
    )
}

/// Read `data.len()` bytes at `offset` from a configuration image into
/// `data`.  Succeeds exactly when the whole range lies inside the image;
/// a failed read leaves `data` untouched (no partial reads).
pub fn read_config_bytes(config: &Vec<u8>, offset: u64, data: &mut Vec<u8>) -> (r: Result<
    (),
    VirtioError,
>)
    ensures
        r is Ok <==> offset + old(data)@.len() <= config@.len(),
        r is Ok ==> final(data)@ == config@.subrange(
            offset as int,
            offset + old(data)@.len(),
        ),
        r is Err ==> final(data)@ == old(data)@,
        r matches Err(e) ==> e == (VirtioError::ConfigAccessOutOfBounds {
            offset,
            len: old(data)@.len() as usize,
            config_len: config@.len() as usize,
        }),
{
    if offset > config.len() as u64 || data.len() > config.len() - (offset as usize) {
        return Err(
            VirtioError::ConfigAccessOutOfBounds {
                offset,
                len: data.len(),
                config_len: config.len(),
            },
        );
    }
    let off = offset as usize;
    let n = data.len();
    let mut out: Vec<u8> = Vec::new();
    for i in 0..n
        invariant
            off + n <= config@.len(),
            config@.len() <= usize::MAX,
            out@.len() == i,
            forall|j: int| 0 <= j < i ==> out@[j] == config@[off + j],
    {
        out.push(config[off + i]);
    }
    *data = out;
    proof {
        assert(data@ =~= config@.subrange(offset as int, offset + old(data)@.len()));
    }
    Ok(())
}

/// Write `data` at `offset` into a configuration image.  Succeeds exactly
/// when the whole range lies inside the image; a failed write changes
/// nothing (no partial writes).
pub fn write_config_bytes(config: &mut Vec<u8>, offset: u64, data: &Vec<u8>) -> (r: Result<
    (),
    VirtioError,
>)
    ensures
        r is Ok <==> offset + data@.len() <= old(config)@.len(),
        r is Ok ==> final(config)@ == spec_write_range(old(config)@, offset as int, data@),
        r is Err ==> final(config)@ == old(config)@,
        r matches Err(e) ==> e == (VirtioError::ConfigAccessOutOfBounds {
            offset,
            len: data@.len() as usize,
            config_len: old(config)@.len() as usize,
        }),
{
    if offset > config.len() as u64 || data.len() > config.len() - (offset as usize) {
        return Err(
            VirtioError::ConfigAccessOutOfBounds {
                offset,
                len: data.len(),
                config_len: config.len(),
            },
        );
    }
    let off = offset as usize;
    let n = data.len();
    for i in 0..n
        invariant
            off + n <= config@.len(),
            config@.len() <= usize::MAX,
            config@.len() == old(config)@.len(),
            data@.len() == n,
            forall|j: int| off <= j < off + i ==> config@[j] == data@[j - off],
            forall|j: int| 0 <= j < config@.len() && !(off <= j < off + i) ==> config@[j] == old(
                config,
            )@[j],
    {
        let b = data[i];
        config.set(off + i, b);
    }
    proof {
        assert(config@ =~= spec_write_range(old(config)@, offset as int, data@));
    }
    Ok(())
}

/// The capability interface of every device backend.  The transport drives
/// it as the guest progresses through the status sequence; the spec members
/// are each backend's mathematical state (supported features, accepted
/// features, registry type, configuration image) that the operation
/// contracts are stated over.
pub trait VirtioDevice: Sized {
    /// Full 64-bit mask of the features the device supports.
    spec fn device_features_spec(&self) -> u64;

    /// Full 64-bit mask of the driver features accepted so far.
    spec fn driver_features_spec(&self) -> u64;

    /// Stable numeric identifier from the fixed device-type registry.
    spec fn device_type_spec(&self) -> u32;

    /// Byte image of the device's configuration space.
    spec fn config_space_spec(&self) -> Seq<u8>;

    /// One-time setup transitioning the constructed backend to usable.
    fn realize(&mut self) -> Result<(), VirtioError>;

    /// Optional teardown; by default the device does not support hot-unplug.
    fn unrealize(&mut self) -> (r: Result<(), VirtioError>)
        default_ensures
            r matches Err(e) && e == VirtioError::UnrealizeNotImplemented,
            *final(self) == *old(self),
    {
        Err(VirtioError::UnrealizeNotImplemented)
    }

    /// The device's stable registry type; it never changes for a variant.
    fn device_type(&self) -> (t: u32)
        ensures
            t == self.device_type_spec(),
    ;

    /// Count of virtqueues the transport must supply at activation.
    spec fn queue_num_spec(&self) -> usize;

    /// Ring size of each virtqueue.
    spec fn queue_size_spec(&self) -> u16;

    /// Count of virtqueues the transport must supply at activation: a pure
    /// topology description, consumed before activation to size the queue
    /// set.
    fn queue_num(&self) -> (n: usize)
        ensures
            n == self.queue_num_spec(),
    ;

    /// Ring size of each virtqueue: a pure topology description.
    fn queue_size(&self) -> (s: u16)
        ensures
            s == self.queue_size_spec(),
    ;

    /// The 32-bit window of the device-supported features at `features_select`.
    fn get_device_features(&self, features_select: u32) -> (r: u32)
        ensures
            r == feature_window(self.device_features_spec(), features_select),
    ;

    /// One feature-negotiation step: narrow the freshly offered window to
    /// the bits the device supports (narrowing, never rejecting) and combine
    /// it with the previously accepted window of the other page into the
    /// full 64-bit accepted mask.
    fn checked_driver_features(&mut self, page: u32, value: u32) -> (v: u64)
        ensures
            v == checked_features(
                old(self).device_features_spec(),
                old(self).driver_features_spec(),
                page,
                value,
            ),
        default_ensures
            *final(self) == *old(self),
    {
        let device_features = self.get_device_features(page);
        let mut v = value;
        let unsupported_features = value & !device_features;
        if unsupported_features != 0 {
            v &= !unsupported_features;
        }
        proof {
            let dw = feature_window(self.device_features_spec(), page);
            assert(value & !(value & !dw) == value & dw) by (bit_vector);
            assert(value & !dw == 0 ==> value == (value & dw)) by (bit_vector);
        }
        if page == 0 {
            ((self.get_driver_features(1) as u64) << 32) | (v as u64)
        } else {
            ((v as u64) << 32) | (self.get_driver_features(0) as u64)
        }
    }

    /// Store the accepted window: the guest-written window, narrowed to the
    /// bits the device supports, replaces the window at `page`; the other
    /// page keeps its prior value.  A page other than 0 or 1 selects no
    /// window and changes no feature state.
    fn set_driver_features(&mut self, page: u32, value: u32)
        ensures
            page == 0 || page == 1 ==> final(self).driver_features_spec() == set_feature_window(
                old(self).driver_features_spec(),
                page,
                value & feature_window(old(self).device_features_spec(), page),
            ),
            !(page == 0 || page == 1) ==> final(self).driver_features_spec() == old(
                self,
            ).driver_features_spec(),
            final(self).device_features_spec() == old(self).device_features_spec(),
            final(self).device_type_spec() == old(self).device_type_spec(),
            final(self).config_space_spec() == old(self).config_space_spec(),
    ;

    /// The 32-bit window of the accepted driver features at `features_select`.
    fn get_driver_features(&self, features_select: u32) -> (r: u32)
        ensures
            r == feature_window(self.driver_features_spec(), features_select),
    ;

    /// Read `data.len()` bytes of the configuration space at `offset`.
    /// Succeeds exactly when the range lies inside the structure; a failed
    /// read returns no bytes (no partial or truncated reads).
    fn read_config(&self, offset: u64, data: &mut Vec<u8>) -> (r: Result<(), VirtioError>)
        ensures
            r is Ok <==> offset + old(data)@.len() <= self.config_space_spec().len(),
            r is Ok ==> final(data)@ == self.config_space_spec().subrange(
                offset as int,
                offset + old(data)@.len(),
            ),
            r is Err ==> final(data)@ == old(data)@,
    ;

    /// Write `data` into the configuration space at `offset`.  A range that
    /// runs past the structure's bounds always fails, and a failed write
    /// changes nothing (no partial writes); feature state and the registry
    /// type are never touched.
    fn write_config(&mut self, offset: u64, data: &Vec<u8>) -> (r: Result<(), VirtioError>)
        ensures
            offset + data@.len() > old(self).config_space_spec().len() ==> r is Err,
            r is Ok ==> final(self).config_space_spec() == spec_write_range(
                old(self).config_space_spec(),
                offset as int,
                data@,
            ),
            r is Err ==> final(self).config_space_spec() == old(self).config_space_spec(),
            final(self).device_features_spec() == old(self).device_features_spec(),
            final(self).driver_features_spec() == old(self).driver_features_spec(),
            final(self).device_type_spec() == old(self).device_type_spec(),
    ;

    /// Transition into the operating state.  Called exactly once, only after
    /// the transport has observed the completed status sequence (see
    /// [`crate::lifecycle`]); the ordering is the transport's obligation and
    /// is assumed already satisfied here.  The device borrows the queue set
    /// and notification handles until deactivation.
    fn activate(
        &mut self,
        mem_space: Arc<AddressSpaceHandle>,
        interrupt_cb: Arc<InterruptHandle>,
        queues: &Vec<Arc<QueueHandle>>,
        queue_evts: Vec<vmm_sys_util::eventfd::EventFd>,
    ) -> Result<(), VirtioError>;

    /// Reverse activation; by default a variant never supports it and fails
    /// naming its own registry type.
    fn deactivate(&mut self) -> (r: Result<(), VirtioError>)
        default_ensures
            r matches Err(e) && e == VirtioError::DeactivateNotSupported(
                old(self).device_type_spec(),
            ),
            *final(self) == *old(self),
    {
        let t = self.device_type();
        Err(VirtioError::DeactivateNotSupported(t))
    }

    /// Return the device to its pre-activation state; the default is a
    /// successful no-op, and variants with negotiated feature state clear it
    /// in their own implementation.
    fn reset(&mut self) -> (r: Result<(), VirtioError>)
        default_ensures
            r is Ok,
            *final(self) == *old(self),
    {
        Ok(())
    }

    /// Optional hot-swap of the backing configuration; unsupported by
    /// default.
    fn update_config<C: ConfigCheck>(&mut self, _dev_config: Option<Arc<C>>) -> (r: Result<
        (),
        VirtioError,
    >)
        default_ensures
            r matches Err(e) && e == VirtioError::UpdateConfigUnsupported,
            *final(self) == *old(self),
    {
        Err(VirtioError::UpdateConfigUnsupported)
    }

    /// Optional alternate interrupt-delivery wiring; a no-op by default.
    fn set_guest_notifiers(&mut self, _queue_evts: &Vec<vmm_sys_util::eventfd::EventFd>) -> (r:
        Result<(), VirtioError>)
        default_ensures
            r is Ok,
            *final(self) == *old(self),
    {
        Ok(())
    }

    /// Whether the device reserves an extra out-of-band control queue;
    /// false by default, and callers account for it in `queue_num()`.
    fn has_control_queue(&mut self) -> (r: bool)
        default_ensures
            r == false,
            *final(self) == *old(self),
    {
        false
    }
}

/// A minimal backend: it keeps exactly the mathematical state of the
/// contract (registry type, feature masks, a configuration image, the
/// lifecycle flags) and nothing else.  It is the stub a transport harness
/// drives through the status sequence.
pub struct StubDevice {
    /// Registry type the stub reports.
    pub dev_type: u32,
    /// Features the stub supports.
    pub device_features: u64,
    /// Accepted driver features.
    pub driver_features: u64,
    /// Configuration image.
    pub config: Vec<u8>,
    /// Count of virtqueues.
    pub num_queues: usize,
    /// Ring size of each virtqueue.
    pub size_of_queue: u16,
    /// Set by `realize()`.
    pub realized: bool,
    /// Set by `activate()`, cleared by `reset()`.
    pub activated: bool,
}

impl StubDevice {
    /// A stub of the given registry type and supported features, with the
    /// given configuration image.
    pub fn new(dev_type: u32, device_features: u64, config: Vec<u8>) -> (d: StubDevice)
        ensures
            d.dev_type == dev_type,
            d.device_features == device_features,
            d.driver_features == 0,
            d.config == config,
            !d.realized,
            !d.activated,
    {
        StubDevice {
            dev_type,
            device_features,
            driver_features: 0,
            config,
            num_queues: 1,
            size_of_queue: 256,
            realized: false,
            activated: false,
        }
    }
}

impl VirtioDevice for StubDevice {
    open spec fn device_features_spec(&self) -> u64 {
        self.device_features
    }

    open spec fn driver_features_spec(&self) -> u64 {
        self.driver_features
    }

    open spec fn device_type_spec(&self) -> u32 {
        self.dev_type
    }

    open spec fn config_space_spec(&self) -> Seq<u8> {
        self.config@
    }

    open spec fn queue_num_spec(&self) -> usize {
        self.num_queues
    }

    open spec fn queue_size_spec(&self) -> u16 {
        self.size_of_queue
    }

    fn realize(&mut self) -> (r: Result<(), VirtioError>)
        ensures
            r is Ok,
            *final(self) == (StubDevice { realized: true, ..*old(self) }),
    {
        self.realized = true;
        Ok(())
    }

    fn device_type(&self) -> (t: u32) {
        self.dev_type
    }

    fn queue_num(&self) -> usize {
        self.num_queues
    }

    fn queue_size(&self) -> u16 {
        self.size_of_queue
    }

    fn get_device_features(&self, features_select: u32) -> (r: u32) {
        get_feature_window(self.device_features, features_select)
    }

    fn set_driver_features(&mut self, page: u32, value: u32) {
        if page == 0 || page == 1 {
            let masked = value & get_feature_window(self.device_features, page);
            self.driver_features = store_feature_window(self.driver_features, page, masked);
        }
    }

    fn get_driver_features(&self, features_select: u32) -> (r: u32) {
        get_feature_window(self.driver_features, features_select)
    }

    fn read_config(&self, offset: u64, data: &mut Vec<u8>) -> (r: Result<(), VirtioError>) {
        read_config_bytes(&self.config, offset, data)
    }

    fn write_config(&mut self, offset: u64, data: &Vec<u8>) -> (r: Result<(), VirtioError>) {
        write_config_bytes(&mut self.config, offset, data)
    }

    fn activate(
        &mut self,
        _mem_space: Arc<AddressSpaceHandle>,
        _interrupt_cb: Arc<InterruptHandle>,
        _queues: &Vec<Arc<QueueHandle>>,
        _queue_evts: Vec<vmm_sys_util::eventfd::EventFd>,
    ) -> (r: Result<(), VirtioError>)
        ensures
            r is Ok,
            *final(self) == (StubDevice { activated: true, ..*old(self) }),
    {
        self.activated = true;
        Ok(())
    }

    fn reset(&mut self) -> (r: Result<(), VirtioError>)
        ensures
            r is Ok,
            *final(self) == (StubDevice { driver_features: 0, activated: false, ..*old(self) }),
    {
        self.driver_features = 0;
        self.activated = false;
        Ok(())
    }
}

} // verus!
