//! The host side of the surround extension: the interface a host
//! implements, the table built from it, its dispatch entry, and the calls a
//! host makes into a plugin's published table.

use crate::boundary::Recovered;
use crate::surround::{PluginSurround, SurroundChannel, SurroundChannels};
use crate::surround::plugin::{
    PluginSurroundImpl, SurroundPluginTable, get_channel_map, is_channel_mask_supported,
};
use vstd::prelude::*;

verus! {

/// The host-side implementation of the surround extension.
pub trait HostSurroundImpl {
    /// Notify the host that the surround configuration for one or more
    /// ports has changed.
    fn changed(&mut self);
}

/// The dispatch entry bound into the host table's `changed` slot. Fails
/// closed: a stale self-pointer leaves the host untouched — the
/// notification has no reply, so its documented failure value is doing
/// nothing.
pub fn changed<H: HostSurroundImpl>(host: &mut Recovered<H>)
    ensures
        *old(host) is Stale ==> *final(host) == *old(host),
{
    match host {
        Recovered::Live(h) => h.changed(),
        Recovered::Stale => (),
    }
}

/// The fixed-shape function table a host publishes for the surround
/// extension.
pub struct SurroundHostTable<H> {
    /// What the table's self-pointer resolves to.
    pub host: Recovered<H>,
    /// Whether the `changed` slot is bound.
    pub has_changed: bool,
}

impl<H: HostSurroundImpl> SurroundHostTable<H> {
    /// The table builder: binds every slot to the dispatch entry
    /// specialized for the implementation type, around a live instance.
    pub fn build(host: H) -> (r: Self)
        ensures
            r.host == Recovered::<H>::Live(host),
            r.has_changed,
    {
        SurroundHostTable { host: Recovered::Live(host), has_changed: true }
    }
}

impl PluginSurround {
    /// Check if the plugin supports the given surround channel mask.
    ///
    /// When the remote table's slot is absent the answer is the documented
    /// unsupported outcome, false, and nothing is invoked.
    pub fn is_channel_mask_supported<P: PluginSurroundImpl>(
        &self,
        handle: &mut SurroundPluginTable<P>,
        mask: SurroundChannels,
    ) -> (r: bool)
        ensures
            !old(handle).has_is_channel_mask_supported ==> r == false && *final(handle) == *old(
                handle,
            ),
            old(handle).plugin is Stale ==> r == false,
    {
        if handle.has_is_channel_mask_supported {
            is_channel_mask_supported(&mut handle.plugin, mask.bits())
        } else {
            false
        }
    }

    /// Get the surround channel map for the given port, if applicable: up
    /// to `channel_map_capacity` channels, in the order the plugin produced
    /// them — the audio-buffer channel order.
    ///
    /// When the remote table's slot is absent the answer is the documented
    /// unsupported outcome, an empty map, and nothing is invoked. The
    /// caller never receives more channels than the capacity it supplied.
    pub fn get_channel_map<P: PluginSurroundImpl>(
        &self,
        handle: &mut SurroundPluginTable<P>,
        is_input: bool,
        port_index: u32,
        channel_map_capacity: u32,
    ) -> (r: Vec<SurroundChannel>)
        ensures
            r@.len() <= channel_map_capacity,
            !old(handle).has_get_channel_map ==> r@.len() == 0 && *final(handle) == *old(handle),
            old(handle).plugin is Stale ==> r@.len() == 0,
            r@.len() > 0 ==> old(handle).has_get_channel_map && old(handle).plugin is Live,
    {
        if handle.has_get_channel_map {
            let reply = get_channel_map(
                &mut handle.plugin,
                is_input,
                port_index,
                channel_map_capacity,
            );
            reply.1
        } else {
            Vec::new()
        }
    }
}

} // verus!
