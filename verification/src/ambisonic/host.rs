//! The host side of the ambisonic extension: the interface a host
//! implements, the table built from it, its dispatch entry, and the calls a
//! host makes into a plugin's published table.
//!
//! The calling side degrades gracefully: an operation whose slot is absent
//! in the remote table is "not offered" and yields the documented
//! unsupported outcome without invoking anything.

use crate::ambisonic::{AmbisonicConfig, PluginAmbisonic};
use crate::ambisonic::plugin::{
    AmbisonicPluginTable, GetConfigReply, PluginAmbisonicImpl, get_config, is_config_supported,
};
use crate::boundary::Recovered;
use vstd::prelude::*;

verus! {

/// The host-side implementation of the ambisonic extension.
pub trait HostAmbisonicImpl {
    /// Notify the host that the ambisonic configuration for one or more
    /// ports has changed.
    ///
    /// The info can only change when the plugin is de-activated.
    fn changed(&mut self);
}

/// The dispatch entry bound into the host table's `changed` slot. Fails
/// closed: a stale self-pointer leaves the host untouched — the notification
/// has no reply, so its documented failure value is doing nothing.
pub fn changed<H: HostAmbisonicImpl>(host: &mut Recovered<H>)
    ensures
        *old(host) is Stale ==> *final(host) == *old(host),
{
    match host {
        Recovered::Live(h) => h.changed(),
        Recovered::Stale => (),
    }
}

/// The fixed-shape function table a host publishes for the ambisonic
/// extension.
pub struct AmbisonicHostTable<H> {
    /// What the table's self-pointer resolves to.
    pub host: Recovered<H>,
    /// Whether the `changed` slot is bound.
    pub has_changed: bool,
}

impl<H: HostAmbisonicImpl> AmbisonicHostTable<H> {
    /// The table builder: binds every slot to the dispatch entry
    /// specialized for the implementation type, around a live instance.
    pub fn build(host: H) -> (r: Self)
        ensures
            r.host == Recovered::<H>::Live(host),
            r.has_changed,
    {
        AmbisonicHostTable { host: Recovered::Live(host), has_changed: true }
    }
}

/// How the calling side reads a `get_config` wire reply: the record counts
/// only when the call succeeded, and then only if it decodes — a reply that
/// fails either test produces no configuration at all.
pub fn interpret_get_config_reply(reply: GetConfigReply) -> (r: Option<AmbisonicConfig>)
    ensures
        r == (if reply.succeeded {
            AmbisonicConfig::spec_from_raw(reply.config)
        } else {
            None::<AmbisonicConfig>
        }),
{
    if reply.succeeded {
        AmbisonicConfig::from_raw(reply.config)
    } else {
        None
    }
}

impl PluginAmbisonic {
    /// Check if the plugin supports the given ambisonic configuration.
    ///
    /// When the remote table's slot is absent the answer is the documented
    /// unsupported outcome, false, and nothing is invoked.
    pub fn is_config_supported<P: PluginAmbisonicImpl>(
        &self,
        handle: &mut AmbisonicPluginTable<P>,
        config: AmbisonicConfig,
    ) -> (r: bool)
        ensures
            !old(handle).has_is_config_supported ==> r == false,
            old(handle).plugin is Stale ==> r == false,
            *final(handle) == *old(handle),
    {
        if handle.has_is_config_supported {
            is_config_supported(&handle.plugin, config.to_raw())
        } else {
            false
        }
    }

    /// Get the ambisonic configuration for the given port, if applicable.
    ///
    /// When the remote table's slot is absent the answer is the documented
    /// unsupported outcome, no configuration, and nothing is invoked.
    pub fn get_config<P: PluginAmbisonicImpl>(
        &self,
        handle: &mut AmbisonicPluginTable<P>,
        is_input: bool,
        port_index: u32,
    ) -> (r: Option<AmbisonicConfig>)
        ensures
            !old(handle).has_get_config ==> r is None,
            old(handle).plugin is Stale ==> r is None,
            r is Some ==> old(handle).has_get_config && old(handle).plugin is Live,
            *final(handle) == *old(handle),
    {
        if handle.has_get_config {
            let reply = get_config(&handle.plugin, is_input, port_index);
            interpret_get_config_reply(reply)
        } else {
            None
        }
    }
}

} // verus!
