//! The surround extension: the speaker arrangement a plugin uses for a
//! surround audio port, negotiated between plugin and host.
//!
//! A single channel travels on the wire as an unsigned 8-bit code out of a
//! closed enumeration of named speaker positions. A set of channels travels
//! as an unsigned 64-bit mask with one reserved bit per named position;
//! unknown bits are kept when a mask is only forwarded, and rejected when it
//! is decoded into the closed enumeration.

pub mod host;
pub mod plugin;

use crate::extension::identifier_matches;
use vstd::prelude::*;

verus! {

/// The names the surround extension answers to: the current identifier and
/// the deprecated compatibility alias.
pub open spec fn spec_surround_identifier(name: Seq<char>) -> bool {
    name == "clap.surround/4"@ || name == "clap.surround.draft/4"@
}

/// The plugin-published side of the surround extension: a typed handle
/// standing for the function table a plugin exposes to its host. Producing
/// one is only sanctioned through [`PluginSurround::match_extension`], after
/// the queried identifier has matched.
#[derive(Copy, Clone, Debug, PartialEq, Eq, Structural)]
pub struct PluginSurround;

/// The host-published side of the surround extension: a typed handle
/// standing for the function table a host exposes to a plugin. Producing one
/// is only sanctioned through [`HostSurround::match_extension`], after the
/// queried identifier has matched.
#[derive(Copy, Clone, Debug, PartialEq, Eq, Structural)]
pub struct HostSurround;

impl PluginSurround {
    /// Whether a queried name equals any member of the identifier set.
    pub fn matches_identifier(name: &str) -> (r: bool)
        ensures
            r == spec_surround_identifier(name@),
    {
        identifier_matches(name, "clap.surround/4", "clap.surround.draft/4")
    }

    /// The capability lookup gate: yields the typed handle exactly when the
    /// queried name matches, and nothing otherwise — "not found" is a valid
    /// outcome, not an error. Only behind a `Some` result may the opaque
    /// pointer the lookup produced be cast to this extension's plugin-side
    /// table layout.
    pub fn match_extension(name: &str) -> (r: Option<Self>)
        ensures
            r is Some <==> spec_surround_identifier(name@),
    {
        if Self::matches_identifier(name) {
            Some(PluginSurround)
        } else {
            None
        }
    }
}

impl HostSurround {
    /// Whether a queried name equals any member of the identifier set.
    pub fn matches_identifier(name: &str) -> (r: bool)
        ensures
            r == spec_surround_identifier(name@),
    {
        identifier_matches(name, "clap.surround/4", "clap.surround.draft/4")
    }

    /// The capability lookup gate for the host-published side; see
    /// [`PluginSurround::match_extension`].
    pub fn match_extension(name: &str) -> (r: Option<Self>)
        ensures
            r is Some <==> spec_surround_identifier(name@),
    {
        if Self::matches_identifier(name) {
            Some(HostSurround)
        } else {
            None
        }
    }
}

/// A specific surround channel.
#[derive(Copy, Clone, Debug, PartialEq, Eq, Structural)]
pub enum SurroundChannel {
    /// Front left speaker.
    FrontLeft,
    /// Front right speaker.
    FrontRight,
    /// Front center speaker.
    FrontCenter,
    /// Low frequency speaker (subwoofer).
    LowFrequency,
    /// Back left speaker.
    BackLeft,
    /// Back right speaker.
    BackRight,
    /// Front center-left speaker.
    FrontLeftCenter,
    /// Front center-right speaker.
    FrontRightCenter,
    /// Back center speaker.
    BackCenter,
    /// Side left speaker.
    SideLeft,
    /// Side right speaker.
    SideRight,
    /// Top center speaker.
    TopCenter,
    /// Top front left speaker.
    TopFrontLeft,
    /// Top front center speaker.
    TopFrontCenter,
    /// Top front right speaker.
    TopFrontRight,
    /// Top back left speaker.
    TopBackLeft,
    /// Top back center speaker.
    TopBackCenter,
    /// Top back right speaker.
    TopBackRight,
}

impl SurroundChannel {
    /// The wire code of each named channel position.
    pub open spec fn spec_to_raw(self) -> u8 {
        match self {
            SurroundChannel::FrontLeft => 0,
            SurroundChannel::FrontRight => 1,
            SurroundChannel::FrontCenter => 2,
            SurroundChannel::LowFrequency => 3,
            SurroundChannel::BackLeft => 4,
            SurroundChannel::BackRight => 5,
            SurroundChannel::FrontLeftCenter => 6,
            SurroundChannel::FrontRightCenter => 7,
            SurroundChannel::BackCenter => 8,
            SurroundChannel::SideLeft => 9,
            SurroundChannel::SideRight => 10,
            SurroundChannel::TopCenter => 11,
            SurroundChannel::TopFrontLeft => 12,
            SurroundChannel::TopFrontCenter => 13,
            SurroundChannel::TopFrontRight => 14,
            SurroundChannel::TopBackLeft => 15,
            SurroundChannel::TopBackCenter => 16,
            SurroundChannel::TopBackRight => 17,
        }
    }

    /// Which channel each wire code decodes to; codes outside the closed
    /// enumeration decode to nothing.
    pub open spec fn spec_from_raw(raw: u8) -> Option<SurroundChannel> {
        if raw == 0 {
            Some(SurroundChannel::FrontLeft)
        } else if raw == 1 {
            Some(SurroundChannel::FrontRight)
        } else if raw == 2 {
            Some(SurroundChannel::FrontCenter)
        } else if raw == 3 {
            Some(SurroundChannel::LowFrequency)
        } else if raw == 4 {
            Some(SurroundChannel::BackLeft)
        } else if raw == 5 {
            Some(SurroundChannel::BackRight)
        } else if raw == 6 {
            Some(SurroundChannel::FrontLeftCenter)
        } else if raw == 7 {
            Some(SurroundChannel::FrontRightCenter)
        } else if raw == 8 {
            Some(SurroundChannel::BackCenter)
        } else if raw == 9 {
            Some(SurroundChannel::SideLeft)
        } else if raw == 10 {
            Some(SurroundChannel::SideRight)
        } else if raw == 11 {
            Some(SurroundChannel::TopCenter)
        } else if raw == 12 {
            Some(SurroundChannel::TopFrontLeft)
        } else if raw == 13 {
            Some(SurroundChannel::TopFrontCenter)
        } else if raw == 14 {
            Some(SurroundChannel::TopFrontRight)
        } else if raw == 15 {
            Some(SurroundChannel::TopBackLeft)
        } else if raw == 16 {
            Some(SurroundChannel::TopBackCenter)
        } else if raw == 17 {
            Some(SurroundChannel::TopBackRight)
        } else {
            None
        }
    }

    /// Decodes a wire code; exactly the known codes succeed.
    pub fn from_raw(raw: u8) -> (r: Option<Self>)
        ensures
            r == Self::spec_from_raw(raw),
    {
        if raw == 0 {
            Some(SurroundChannel::FrontLeft)
        } else if raw == 1 {
            Some(SurroundChannel::FrontRight)
        } else if raw == 2 {
            Some(SurroundChannel::FrontCenter)
        } else if raw == 3 {
            Some(SurroundChannel::LowFrequency)
        } else if raw == 4 {
            Some(SurroundChannel::BackLeft)
        } else if raw == 5 {
            Some(SurroundChannel::BackRight)
        } else if raw == 6 {
            Some(SurroundChannel::FrontLeftCenter)
        } else if raw == 7 {
            Some(SurroundChannel::FrontRightCenter)
        } else if raw == 8 {
            Some(SurroundChannel::BackCenter)
        } else if raw == 9 {
            Some(SurroundChannel::SideLeft)
        } else if raw == 10 {
            Some(SurroundChannel::SideRight)
        } else if raw == 11 {
            Some(SurroundChannel::TopCenter)
        } else if raw == 12 {
            Some(SurroundChannel::TopFrontLeft)
        } else if raw == 13 {
            Some(SurroundChannel::TopFrontCenter)
        } else if raw == 14 {
            Some(SurroundChannel::TopFrontRight)
        } else if raw == 15 {
            Some(SurroundChannel::TopBackLeft)
        } else if raw == 16 {
            Some(SurroundChannel::TopBackCenter)
        } else if raw == 17 {
            Some(SurroundChannel::TopBackRight)
        } else {
            None
        }
    }

    /// Encodes to the wire code.
    pub fn to_raw(self) -> (r: u8)
        ensures
            r == self.spec_to_raw(),
    {
        match self {
            SurroundChannel::FrontLeft => 0,
            SurroundChannel::FrontRight => 1,
            SurroundChannel::FrontCenter => 2,
            SurroundChannel::LowFrequency => 3,
            SurroundChannel::BackLeft => 4,
            SurroundChannel::BackRight => 5,
            SurroundChannel::FrontLeftCenter => 6,
            SurroundChannel::FrontRightCenter => 7,
            SurroundChannel::BackCenter => 8,
            SurroundChannel::SideLeft => 9,
            SurroundChannel::SideRight => 10,
            SurroundChannel::TopCenter => 11,
            SurroundChannel::TopFrontLeft => 12,
            SurroundChannel::TopFrontCenter => 13,
            SurroundChannel::TopFrontRight => 14,
            SurroundChannel::TopBackLeft => 15,
            SurroundChannel::TopBackCenter => 16,
            SurroundChannel::TopBackRight => 17,
        }
    }
}

/// The reserved mask bit of a named channel position.
pub open spec fn spec_channel_bit(c: SurroundChannel) -> u64 {
    1u64 << (c.spec_to_raw() as u64)
}

/// The union of the reserved bits of a sequence of named channel positions.
pub open spec fn spec_channels_mask(channels: Seq<SurroundChannel>) -> u64
    decreases channels.len(),
{
    if channels.len() == 0 {
        0u64
    } else {
        spec_channels_mask(channels.drop_last()) | spec_channel_bit(channels.last())
    }
}

/// A mask containing multiple surround channels: a 64-bit wire value with
/// one reserved bit per named channel position. Bits outside the named
/// positions are carried through untouched when the mask is only forwarded.
#[derive(Copy, Clone, Debug, PartialEq, Eq, Structural)]
pub struct SurroundChannels {
    bits: u64,
}

impl SurroundChannels {
    /// The raw 64-bit wire value of the mask.
    pub closed spec fn spec_bits(&self) -> u64 {
        self.bits
    }

    /// Whether the reserved bit of a named channel position is set.
    pub open spec fn spec_contains(&self, c: SurroundChannel) -> bool {
        self.spec_bits() & spec_channel_bit(c) != 0
    }

    /// The mask a raw 64-bit wire value stands for, bit for bit.
    pub closed spec fn spec_from_bits(bits: u64) -> SurroundChannels {
        SurroundChannels { bits }
    }

    /// The mask with no channel set.
    pub fn empty() -> (r: Self)
        ensures
            r.spec_bits() == 0,
    {
        SurroundChannels { bits: 0 }
    }

    /// Reads the raw 64-bit wire value back out, bit for bit.
    pub fn bits(&self) -> (r: u64)
        ensures
            r == self.spec_bits(),
    {
        self.bits
    }

    /// Adopts a raw 64-bit wire value, keeping every bit — also the bits
    /// outside the named positions, so that a mask that is only forwarded
    /// loses nothing.
    pub fn from_bits_retain(bits: u64) -> (r: Self)
        ensures
            r.spec_bits() == bits,
    {
        SurroundChannels { bits }
    }

    /// The mask holding exactly one named channel position.
    pub fn from_channel(channel: SurroundChannel) -> (r: Self)
        ensures
            r.spec_bits() == spec_channel_bit(channel),
    {
        let code = channel.to_raw();
        SurroundChannels { bits: 1u64 << (code as u64) }
    }

    /// Whether the mask holds the given named channel position.
    pub fn contains(&self, channel: SurroundChannel) -> (r: bool)
        ensures
            r == self.spec_contains(channel),
    {
        let code = channel.to_raw();
        self.bits & (1u64 << (code as u64)) != 0
    }

    /// Unions the reserved bits of the given channels into the mask;
    /// positions already present stay present (duplicates are idempotent).
    pub fn extend(&mut self, channels: &[SurroundChannel])
        ensures
            final(self).spec_bits() == old(self).spec_bits() | spec_channels_mask(channels@),
    {
        let ghost initial: u64 = self.bits;
        proof {
            assert(channels@.take(0).len() == 0);
            let m = initial;
            assert(m | 0u64 == m) by (bit_vector);
        }
        let mut i: usize = 0;
        while i < channels.len()
            invariant
                i <= channels@.len(),
                self.bits == initial | spec_channels_mask(channels@.take(i as int)),
            decreases channels@.len() - i,
        {
            let code = channels[i].to_raw();
            let bit: u64 = 1u64 << (code as u64);
            proof {
                let prefix = channels@.take(i as int);
                let next = channels@.take(i + 1);
                assert(next.drop_last() =~= prefix);
                assert(next.last() == channels@[i as int]);
                let m = initial;
                let a = spec_channels_mask(prefix);
                let b = spec_channel_bit(channels@[i as int]);
                assert((m | a) | b == m | (a | b)) by (bit_vector);
            }
            self.bits = self.bits | bit;
            i = i + 1;
        }
        proof {
            assert(channels@.take(channels@.len() as int) =~= channels@);
        }
    }

    /// The mask unioned from an arbitrary sequence of named channel
    /// positions.
    pub fn from_channels(channels: &[SurroundChannel]) -> (r: Self)
        ensures
            r.spec_bits() == spec_channels_mask(channels@),
    {
        let mut mask = SurroundChannels::empty();
        mask.extend(channels);
        proof {
            let m = spec_channels_mask(channels@);
            assert(0u64 | m == m) by (bit_vector);
        }
        mask
    }

    /// Decodes the mask into the closed enumeration: the named channel
    /// positions whose bit is set, in wire-code order. Bits outside the
    /// named positions are rejected — they appear in no decoded channel.
    pub fn to_channels(&self) -> (r: Vec<SurroundChannel>)
        ensures
            forall|c: SurroundChannel| r@.contains(c) <==> self.spec_contains(c),
            forall|i: int, j: int|
                0 <= i < j < r@.len() ==> r@[i].spec_to_raw() < r@[j].spec_to_raw(),
    {
        let mut out: Vec<SurroundChannel> = Vec::new();
        let mut code: u8 = 0;
        while code < 18
            invariant
                code <= 18,
                forall|c: SurroundChannel|
                    out@.contains(c) <==> (self.spec_contains(c) && c.spec_to_raw() < code),
                forall|i: int, j: int|
                    0 <= i < j < out@.len() ==> out@[i].spec_to_raw() < out@[j].spec_to_raw(),
                forall|i: int| 0 <= i < out@.len() ==> out@[i].spec_to_raw() < code,
            decreases 18 - code,
        {
            if let Some(channel) = SurroundChannel::from_raw(code) {
                proof {
                    lemma_channel_wire_round_trip();
                }
                if self.contains(channel) {
                    let ghost before = out@;
                    out.push(channel);
                    proof {
                        assert forall|c: SurroundChannel|
                            out@.contains(c) <==> (before.contains(c) || c == channel) by {
                            assert(out@ == before.push(channel));
                            if out@.contains(c) {
                                let k = choose|k: int| 0 <= k < out@.len() && out@[k] == c;
                                if k < before.len() {
                                    assert(before[k] == c);
                                }
                            }
                            if before.contains(c) {
                                let k = choose|k: int| 0 <= k < before.len() && before[k] == c;
                                assert(out@[k] == c);
                            }
                            if c == channel {
                                assert(out@[out@.len() - 1] == c);
                            }
                        }
                    }
                }
            }
            code = code + 1;
        }
        proof {
            assert forall|c: SurroundChannel| c.spec_to_raw() < 18 by {
                lemma_channel_wire_round_trip();
            }
        }
        out
    }
}

impl From<SurroundChannel> for SurroundChannels {
    /// The mask holding exactly one named channel position.
    fn from(channel: SurroundChannel) -> (r: SurroundChannels) {
        SurroundChannels::from_channel(channel)
    }
}

impl vstd::std_specs::convert::FromSpecImpl<SurroundChannel> for SurroundChannels {
    open spec fn obeys_from_spec() -> bool {
        true
    }

    open spec fn from_spec(channel: SurroundChannel) -> SurroundChannels {
        SurroundChannels::spec_from_bits(spec_channel_bit(channel))
    }
}

/// Unioning a sequence of named channel positions into a mask makes
/// membership true exactly for the positions present in the sequence;
/// unioning the same position twice has no additional effect, since the
/// right-hand side depends only on which positions occur.
pub proof fn lemma_channel_set_membership(channels: Seq<SurroundChannel>, c: SurroundChannel)
    ensures
        spec_channels_mask(channels) & spec_channel_bit(c) != 0 <==> channels.contains(c),
    decreases channels.len(),
{
    lemma_channel_wire_round_trip();
    if channels.len() == 0 {
        let b = spec_channel_bit(c);
        assert(0u64 & b == 0) by (bit_vector);
    } else {
        let prefix = channels.drop_last();
        let last = channels.last();
        lemma_channel_set_membership(prefix, c);
        let m = spec_channels_mask(prefix);
        let x = c.spec_to_raw() as u64;
        let y = last.spec_to_raw() as u64;
        assert(((m | (1u64 << y)) & (1u64 << x) != 0) <==> (m & (1u64 << x) != 0 || x == y))
            by (bit_vector)
            requires x < 64 && y < 64,
        ;
        if x == y {
            assert(SurroundChannel::spec_from_raw(c.spec_to_raw()) == Some(c));
            assert(SurroundChannel::spec_from_raw(last.spec_to_raw()) == Some(last));
            assert(c == last);
        }
        if channels.contains(c) {
            let k = choose|k: int| 0 <= k < channels.len() && channels[k] == c;
            if k < channels.len() - 1 {
                assert(prefix[k] == c);
            }
        }
        if prefix.contains(c) {
            let k = choose|k: int| 0 <= k < prefix.len() && prefix[k] == c;
            assert(channels[k] == c);
        }
        if c == last {
            assert(channels[channels.len() - 1] == c);
        }
    }
}

/// A channel-set mask survives the wire bit for bit: adopting the raw value
/// a mask reads out reconstructs the identical mask, unknown bits included,
/// and adopting any raw value loses no bit.
pub proof fn lemma_mask_wire_round_trip(mask: SurroundChannels, bits: u64)
    ensures
        SurroundChannels::spec_from_bits(mask.spec_bits()) == mask,
        SurroundChannels::spec_from_bits(bits).spec_bits() == bits,
{
}

/// Decoding and then encoding a channel code returns the identical code,
/// and every named channel survives a wire round trip.
pub proof fn lemma_channel_wire_round_trip()
    ensures
        forall|c: SurroundChannel|
            SurroundChannel::spec_from_raw(#[trigger] c.spec_to_raw()) == Some(c),
        forall|raw: u8|
            (#[trigger] SurroundChannel::spec_from_raw(raw)) matches Some(c)
                ==> c.spec_to_raw() == raw,
{
}

} // verus!
