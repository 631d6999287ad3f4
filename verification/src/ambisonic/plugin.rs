//! The plugin side of the ambisonic extension: the interface a plugin
//! implements, the table built from it, and the dispatch entries bound into
//! that table.
//!
//! Each entry bridges an untyped incoming call — a foreign self-pointer plus
//! wire arguments — to the typed local implementation, and fails closed: a
//! stale self-pointer or a malformed wire argument yields the operation's
//! documented failure value, never a fault that crosses the boundary.

use crate::ambisonic::{
    AmbisonicConfig, HostAmbisonic, RawAmbisonicConfig, lemma_config_wire_round_trip,
};
use crate::ambisonic::host::{AmbisonicHostTable, HostAmbisonicImpl, changed};
use crate::boundary::Recovered;
use vstd::prelude::*;

verus! {

/// The plugin-side implementation of the ambisonic extension.
pub trait PluginAmbisonicImpl {
    /// Returns true if the given configuration is supported.
    fn is_config_supported(&self, config: AmbisonicConfig) -> bool;

    /// Returns the ambisonic configuration for the given port, if
    /// applicable.
    fn get_config(&self, is_input: bool, port_index: u32) -> Option<AmbisonicConfig>;
}

/// The wire reply of the `get_config` operation: whether the call succeeded,
/// and the configuration record it wrote.
#[derive(Copy, Clone, Debug, PartialEq, Eq, Structural)]
pub struct GetConfigReply {
    /// The operation's wire result; false is its documented failure value.
    pub succeeded: bool,
    /// The wire record the operation wrote; meaningful only on success.
    pub config: RawAmbisonicConfig,
}

/// The dispatch entry bound into the `is_config_supported` slot. Fails
/// closed: a stale self-pointer or a configuration record that does not
/// decode returns the documented failure value, false, without reaching the
/// implementation.
pub fn is_config_supported<P: PluginAmbisonicImpl>(
    plugin: &Recovered<P>,
    config: RawAmbisonicConfig,
) -> (r: bool)
    ensures
        plugin is Stale ==> r == false,
        AmbisonicConfig::spec_from_raw(config) is None ==> r == false,
{
    match plugin {
        Recovered::Live(p) => match AmbisonicConfig::from_raw(config) {
            Some(decoded) => p.is_config_supported(decoded),
            None => false,
        },
        Recovered::Stale => false,
    }
}

/// The dispatch entry bound into the `get_config` slot. Fails closed: a
/// stale self-pointer returns the documented failure value, false. On
/// success the reply carries a record that decodes back to the
/// configuration the implementation produced.
pub fn get_config<P: PluginAmbisonicImpl>(
    plugin: &Recovered<P>,
    is_input: bool,
    port_index: u32,
) -> (r: GetConfigReply)
    ensures
        plugin is Stale ==> r.succeeded == false,
        r.succeeded ==> AmbisonicConfig::spec_from_raw(r.config) is Some,
{
    match plugin {
        Recovered::Live(p) => match p.get_config(is_input, port_index) {
            Some(output) => {
                proof {
                    lemma_config_wire_round_trip(output);
                }
                GetConfigReply { succeeded: true, config: output.to_raw() }
            },
            None => GetConfigReply {
                succeeded: false,
                config: RawAmbisonicConfig { ordering: 0, normalization: 0 },
            },
        },
        Recovered::Stale => GetConfigReply {
            succeeded: false,
            config: RawAmbisonicConfig { ordering: 0, normalization: 0 },
        },
    }
}

/// The fixed-shape function table a plugin publishes for the ambisonic
/// extension: the self-pointer the entries will receive, and one optional
/// slot per operation — an absent slot means the operation is not offered,
/// which is a legitimate permanent state, not an error.
pub struct AmbisonicPluginTable<P> {
    /// What the table's self-pointer resolves to.
    pub plugin: Recovered<P>,
    /// Whether the `is_config_supported` slot is bound.
    pub has_is_config_supported: bool,
    /// Whether the `get_config` slot is bound.
    pub has_get_config: bool,
}

impl<P: PluginAmbisonicImpl> AmbisonicPluginTable<P> {
    /// The table builder: binds every slot to the dispatch entry
    /// specialized for the implementation type, around a live instance.
    pub fn build(plugin: P) -> (r: Self)
        ensures
            r.plugin == Recovered::<P>::Live(plugin),
            r.has_is_config_supported,
            r.has_get_config,
    {
        AmbisonicPluginTable {
            plugin: Recovered::Live(plugin),
            has_is_config_supported: true,
            has_get_config: true,
        }
    }
}

impl HostAmbisonic {
    /// Notify the host that the ambisonic configuration for one or more
    /// ports has changed.
    ///
    /// The info can only change when the plugin is de-activated. When the
    /// host's table has no `changed` slot the call degrades to a no-op.
    pub fn changed<H: HostAmbisonicImpl>(&self, handle: &mut AmbisonicHostTable<H>)
        ensures
            !old(handle).has_changed ==> *final(handle) == *old(handle),
            old(handle).host is Stale ==> *final(handle) == *old(handle),
    {
        if handle.has_changed {
            changed(&mut handle.host);
        }
    }
}

} // verus!
