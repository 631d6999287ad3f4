//! The ambisonic extension: the channel mapping a plugin uses for an
//! ambisonic audio port, negotiated between plugin and host.
//!
//! The wire representation of a configuration is a record of two unsigned
//! 32-bit codes, one for the component ordering and one for the
//! normalization method. Each code set is a closed enumeration: decoding
//! rejects every code outside it, and a composite record decodes only when
//! both of its fields do.

pub mod host;
pub mod plugin;

use crate::extension::identifier_matches;
use vstd::prelude::*;

verus! {

/// The names the ambisonic extension answers to: the current identifier and
/// the deprecated compatibility alias.
pub open spec fn spec_ambisonic_identifier(name: Seq<char>) -> bool {
    name == "clap.ambisonic/3"@ || name == "clap.ambisonic.draft/3"@
}

/// The plugin-published side of the ambisonic extension: a typed handle
/// standing for the function table a plugin exposes to its host. Producing
/// one is only sanctioned through [`PluginAmbisonic::match_extension`], after
/// the queried identifier has matched.
#[derive(Copy, Clone, Debug, PartialEq, Eq, Structural)]
pub struct PluginAmbisonic;

/// The host-published side of the ambisonic extension: a typed handle
/// standing for the function table a host exposes to a plugin. Producing one
/// is only sanctioned through [`HostAmbisonic::match_extension`], after the
/// queried identifier has matched.
#[derive(Copy, Clone, Debug, PartialEq, Eq, Structural)]
pub struct HostAmbisonic;

impl PluginAmbisonic {
    /// Whether a queried name equals any member of the identifier set.
    pub fn matches_identifier(name: &str) -> (r: bool)
        ensures
            r == spec_ambisonic_identifier(name@),
    {
        identifier_matches(name, "clap.ambisonic/3", "clap.ambisonic.draft/3")
    }

    /// The capability lookup gate: yields the typed handle exactly when the
    /// queried name matches, and nothing otherwise — "not found" is a valid
    /// outcome, not an error. Only behind a `Some` result may the opaque
    /// pointer the lookup produced be cast to this extension's plugin-side
    /// table layout.
    pub fn match_extension(name: &str) -> (r: Option<Self>)
        ensures
            r is Some <==> spec_ambisonic_identifier(name@),
    {
        if Self::matches_identifier(name) {
            Some(PluginAmbisonic)
        } else {
            None
        }
    }
}

impl HostAmbisonic {
    /// Whether a queried name equals any member of the identifier set.
    pub fn matches_identifier(name: &str) -> (r: bool)
        ensures
            r == spec_ambisonic_identifier(name@),
    {
        identifier_matches(name, "clap.ambisonic/3", "clap.ambisonic.draft/3")
    }

    /// The capability lookup gate for the host-published side; see
    /// [`PluginAmbisonic::match_extension`].
    pub fn match_extension(name: &str) -> (r: Option<Self>)
        ensures
            r is Some <==> spec_ambisonic_identifier(name@),
    {
        if Self::matches_identifier(name) {
            Some(HostAmbisonic)
        } else {
            None
        }
    }
}

/// Component ordering for an ambisonic data exchange format.
#[derive(Copy, Clone, Debug, PartialEq, Eq, Structural)]
pub enum AmbisonicOrdering {
    /// Furse-Malham channel ordering.
    FuMa,
    /// Ambisonic Channel Number ordering.
    ACN,
}

/// Normalization method for an ambisonic data exchange format.
#[derive(Copy, Clone, Debug, PartialEq, Eq, Structural)]
pub enum AmbisonicNormalization {
    /// maxN normalization scheme.
    MaxN,
    /// Schmidt semi-normalisation (3D).
    SN3D,
    /// Full 3D normalization.
    N3D,
    /// Schmidt semi-normalisation (2D).
    SN2D,
    /// Full 2D normalization.
    N2D,
}

/// Ambisonic data exchange format for an audio port.
#[derive(Copy, Clone, Debug, PartialEq, Eq, Structural)]
pub struct AmbisonicConfig {
    /// The ambisonic channel ordering.
    pub ordering: AmbisonicOrdering,
    /// The ambisonic normalization method.
    pub normalization: AmbisonicNormalization,
}

/// The wire form of an ambisonic configuration record: two unsigned 32-bit
/// codes, exactly as the ABI lays them out.
#[derive(Copy, Clone, Debug, PartialEq, Eq, Structural)]
pub struct RawAmbisonicConfig {
    /// Wire code of the component ordering.
    pub ordering: u32,
    /// Wire code of the normalization method.
    pub normalization: u32,
}

impl AmbisonicOrdering {
    /// The wire code of each ordering.
    pub open spec fn spec_to_raw(self) -> u32 {
        match self {
            AmbisonicOrdering::FuMa => 0,
            AmbisonicOrdering::ACN => 1,
        }
    }

    /// Which orderings each wire code decodes to; codes outside the closed
    /// enumeration decode to nothing.
    pub open spec fn spec_from_raw(raw: u32) -> Option<AmbisonicOrdering> {
        if raw == 0 {
            Some(AmbisonicOrdering::FuMa)
        } else if raw == 1 {
            Some(AmbisonicOrdering::ACN)
        } else {
            None
        }
    }

    /// Decodes a wire code; exactly the known codes succeed.
    pub fn from_raw(raw: u32) -> (r: Option<Self>)
        ensures
            r == Self::spec_from_raw(raw),
    {
        if raw == 0 {
            Some(AmbisonicOrdering::FuMa)
        } else if raw == 1 {
            Some(AmbisonicOrdering::ACN)
        } else {
            None
        }
    }

    /// Encodes to the wire code.
    pub fn to_raw(self) -> (r: u32)
        ensures
            r == self.spec_to_raw(),
    {
        match self {
            AmbisonicOrdering::FuMa => 0,
            AmbisonicOrdering::ACN => 1,
        }
    }
}

impl AmbisonicNormalization {
    /// The wire code of each normalization method.
    pub open spec fn spec_to_raw(self) -> u32 {
        match self {
            AmbisonicNormalization::MaxN => 0,
            AmbisonicNormalization::SN3D => 1,
            AmbisonicNormalization::N3D => 2,
            AmbisonicNormalization::SN2D => 3,
            AmbisonicNormalization::N2D => 4,
        }
    }

    /// Which methods each wire code decodes to; codes outside the closed
    /// enumeration decode to nothing.
    pub open spec fn spec_from_raw(raw: u32) -> Option<AmbisonicNormalization> {
        if raw == 0 {
            Some(AmbisonicNormalization::MaxN)
        } else if raw == 1 {
            Some(AmbisonicNormalization::SN3D)
        } else if raw == 2 {
            Some(AmbisonicNormalization::N3D)
        } else if raw == 3 {
            Some(AmbisonicNormalization::SN2D)
        } else if raw == 4 {
            Some(AmbisonicNormalization::N2D)
        } else {
            None
        }
    }

    /// Decodes a wire code; exactly the known codes succeed.
    pub fn from_raw(raw: u32) -> (r: Option<Self>)
        ensures
            r == Self::spec_from_raw(raw),
    {
        if raw == 0 {
            Some(AmbisonicNormalization::MaxN)
        } else if raw == 1 {
            Some(AmbisonicNormalization::SN3D)
        } else if raw == 2 {
            Some(AmbisonicNormalization::N3D)
        } else if raw == 3 {
            Some(AmbisonicNormalization::SN2D)
        } else if raw == 4 {
            Some(AmbisonicNormalization::N2D)
        } else {
            None
        }
    }

    /// Encodes to the wire code.
    pub fn to_raw(self) -> (r: u32)
        ensures
            r == self.spec_to_raw(),
    {
        match self {
            AmbisonicNormalization::MaxN => 0,
            AmbisonicNormalization::SN3D => 1,
            AmbisonicNormalization::N3D => 2,
            AmbisonicNormalization::SN2D => 3,
            AmbisonicNormalization::N2D => 4,
        }
    }
}

impl AmbisonicConfig {
    /// A composite record decodes only when both of its fields decode; no
    /// partially-populated record is ever produced.
    pub open spec fn spec_from_raw(raw: RawAmbisonicConfig) -> Option<AmbisonicConfig> {
        match (
            AmbisonicOrdering::spec_from_raw(raw.ordering),
            AmbisonicNormalization::spec_from_raw(raw.normalization),
        ) {
            (Some(ordering), Some(normalization)) => Some(
                AmbisonicConfig { ordering, normalization },
            ),
            _ => None,
        }
    }

    /// The wire record that encodes a configuration.
    pub open spec fn spec_to_raw(self) -> RawAmbisonicConfig {
        RawAmbisonicConfig {
            ordering: self.ordering.spec_to_raw(),
            normalization: self.normalization.spec_to_raw(),
        }
    }

    /// Decodes a wire record; it succeeds exactly when both field codes are
    /// known.
    pub fn from_raw(raw: RawAmbisonicConfig) -> (r: Option<Self>)
        ensures
            r == Self::spec_from_raw(raw),
    {
        match (
            AmbisonicOrdering::from_raw(raw.ordering),
            AmbisonicNormalization::from_raw(raw.normalization),
        ) {
            (Some(ordering), Some(normalization)) => Some(
                AmbisonicConfig { ordering, normalization },
            ),
            _ => None,
        }
    }

    /// Encodes to the wire record.
    pub fn to_raw(self) -> (r: RawAmbisonicConfig)
        ensures
            r == self.spec_to_raw(),
    {
        RawAmbisonicConfig {
            ordering: self.ordering.to_raw(),
            normalization: self.normalization.to_raw(),
        }
    }
}

/// Decoding and then encoding an ordering code returns the identical code,
/// and every known ordering survives a wire round trip; codes outside the
/// closed enumeration decode to nothing, which `spec_from_raw` states
/// directly.
pub proof fn lemma_ordering_wire_round_trip()
    ensures
        forall|o: AmbisonicOrdering|
            AmbisonicOrdering::spec_from_raw(#[trigger] o.spec_to_raw()) == Some(o),
        forall|raw: u32|
            (#[trigger] AmbisonicOrdering::spec_from_raw(raw)) matches Some(o)
                ==> o.spec_to_raw() == raw,
{
}

/// Decoding and then encoding a normalization code returns the identical
/// code, and every known method survives a wire round trip.
pub proof fn lemma_normalization_wire_round_trip()
    ensures
        forall|n: AmbisonicNormalization|
            AmbisonicNormalization::spec_from_raw(#[trigger] n.spec_to_raw()) == Some(n),
        forall|raw: u32|
            (#[trigger] AmbisonicNormalization::spec_from_raw(raw)) matches Some(n)
                ==> n.spec_to_raw() == raw,
{
}

/// A composite record decodes exactly when each constituent field's code is
/// individually valid, the decoded fields are the fields' own decodings, and
/// the record survives a wire round trip in both directions.
pub proof fn lemma_config_decode_all_or_nothing(raw: RawAmbisonicConfig)
    ensures
        AmbisonicConfig::spec_from_raw(raw) is Some <==> (
            AmbisonicOrdering::spec_from_raw(raw.ordering) is Some
            && AmbisonicNormalization::spec_from_raw(raw.normalization) is Some
        ),
        AmbisonicConfig::spec_from_raw(raw) matches Some(c) ==> {
            &&& Some(c.ordering) == AmbisonicOrdering::spec_from_raw(raw.ordering)
            &&& Some(c.normalization) == AmbisonicNormalization::spec_from_raw(raw.normalization)
            &&& c.spec_to_raw() == raw
        },
{
    lemma_ordering_wire_round_trip();
    lemma_normalization_wire_round_trip();
}

/// Every configuration survives a wire round trip.
pub proof fn lemma_config_wire_round_trip(config: AmbisonicConfig)
    ensures
        AmbisonicConfig::spec_from_raw(config.spec_to_raw()) == Some(config),
{
    lemma_ordering_wire_round_trip();
    lemma_normalization_wire_round_trip();
}

} // verus!
