//! The AetherNet device shim of the network stack V-Node. Received frames
//! wait in DMA buffers of the bridge; the shim does not take them in yet.
use vstd::prelude::*;

verus! {

/// The network device that the network stack drives.
pub struct AetherNetDevice {
    driver_id: u32,
    bridge_channel_id: u32,
}

impl AetherNetDevice {
    /// The driver this device stands for.
    pub closed spec fn driver(&self) -> u32 {
        self.driver_id
    }

    /// The channel to the network bridge.
    pub closed spec fn bridge_channel(&self) -> u32 {
        self.bridge_channel_id
    }

    /// A device for driver `driver_id`, reached through `bridge_channel_id`.
    pub fn new(driver_id: u32, bridge_channel_id: u32) -> (d: Self)
        ensures
            d.driver() == driver_id,
            d.bridge_channel() == bridge_channel_id,
    {
        AetherNetDevice { driver_id, bridge_channel_id }
    }

    /// Takes note of a received frame in a DMA buffer. Frames are not taken
    /// in yet: the device is left as it was.
    pub fn enqueue_rx_packet(&mut self, _dma_handle: u64, _len: usize)
        ensures
            final(self).driver() == old(self).driver(),
            final(self).bridge_channel() == old(self).bridge_channel(),
    {
    }
}

} // verus!
