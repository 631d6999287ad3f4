//! The plugin side of the surround extension: the bounded writer a plugin
//! fills with a channel map, the interface a plugin implements, the table
//! built from it, and the dispatch entries bound into that table.

use crate::boundary::Recovered;
use crate::surround::{HostSurround, SurroundChannel, SurroundChannels};
use crate::surround::host::{HostSurroundImpl, SurroundHostTable, changed};
use vstd::math::min;
use vstd::prelude::*;

verus! {

/// A writer for surround channel maps: a fixed-capacity output slot a
/// callee fills incrementally. Writing past capacity silently stops — the
/// caller pre-sized its buffer to the maximum the protocol guarantees, and
/// excess elements are dropped, not an error. The final length, not the
/// capacity, is what is reported back as "how many channels were produced".
pub struct SurroundMapWriter {
    capacity: usize,
    channels: Vec<SurroundChannel>,
}

impl SurroundMapWriter {
    /// The fixed capacity the writer was constructed with.
    pub closed spec fn spec_capacity(&self) -> nat {
        self.capacity as nat
    }

    /// The channels written so far, in written order.
    pub closed spec fn spec_channels(&self) -> Seq<SurroundChannel> {
        self.channels@
    }

    /// The writer never holds more channels than its capacity.
    pub open spec fn wf(&self) -> bool {
        self.spec_channels().len() <= self.spec_capacity()
    }

    /// How many more channels fit.
    pub open spec fn spec_room(&self) -> int {
        self.spec_capacity() - self.spec_channels().len()
    }

    /// A fresh writer of the given capacity, holding nothing.
    pub fn new(capacity: usize) -> (r: Self)
        ensures
            r.wf(),
            r.spec_capacity() == capacity,
            r.spec_channels().len() == 0,
    {
        SurroundMapWriter { capacity, channels: Vec::new() }
    }

    /// Returns the capacity of the writer (i.e., the maximum number of
    /// channels that can be written).
    pub fn capacity(&self) -> (r: usize)
        ensures
            r == self.spec_capacity(),
    {
        self.capacity
    }

    /// Returns the number of channels currently written to the writer.
    pub fn len(&self) -> (r: usize)
        ensures
            r == self.spec_channels().len(),
    {
        self.channels.len()
    }

    /// Returns true if no channels have been written to the writer.
    pub fn is_empty(&self) -> (r: bool)
        ensures
            r == (self.spec_channels().len() == 0),
    {
        self.channels.len() == 0
    }

    /// Clears the writer, removing all written channels; the capacity is
    /// unchanged, and a subsequent fill behaves as on a fresh writer.
    pub fn clear(&mut self)
        ensures
            final(self).wf(),
            final(self).spec_capacity() == old(self).spec_capacity(),
            final(self).spec_channels().len() == 0,
    {
        self.channels.clear();
    }

    /// Appends as many of the given channels as fit the remaining room, in
    /// order, and silently stops at capacity.
    pub fn extend(&mut self, channels: &[SurroundChannel])
        requires
            old(self).wf(),
        ensures
            final(self).wf(),
            final(self).spec_capacity() == old(self).spec_capacity(),
            final(self).spec_channels() == old(self).spec_channels() + channels@.take(
                min(channels@.len() as int, old(self).spec_room()),
            ),
    {
        let ghost initial = self.channels@;
        let mut i: usize = 0;
        while i < channels.len() && self.channels.len() < self.capacity
            invariant
                self.capacity == old(self).spec_capacity(),
                i <= channels@.len(),
                i <= old(self).spec_room(),
                self.channels@ == initial + channels@.take(i as int),
                self.channels@.len() == initial.len() + i,
                self.channels@.len() <= self.capacity,
                initial == old(self).spec_channels(),
            decreases channels@.len() - i,
        {
            self.channels.push(channels[i]);
            proof {
                assert(channels@.take(i + 1).drop_last() =~= channels@.take(i as int));
                assert(self.channels@ =~= initial + channels@.take(i + 1));
            }
            i = i + 1;
        }
        proof {
            if i < channels@.len() {
                assert(i == old(self).spec_room());
            } else {
                assert(i == channels@.len());
            }
        }
    }

    /// Sets the channels in the writer to the given sequence, replacing any
    /// existing channels: the writer then holds the first `min(N, C)` of the
    /// `N` given channels, for capacity `C`, in the given order.
    pub fn set(&mut self, channels: &[SurroundChannel])
        ensures
            final(self).wf(),
            final(self).spec_capacity() == old(self).spec_capacity(),
            final(self).spec_channels() == channels@.take(
                min(channels@.len() as int, old(self).spec_capacity() as int),
            ),
    {
        self.clear();
        self.extend(channels);
        proof {
            assert(Seq::<SurroundChannel>::empty() + channels@.take(
                min(channels@.len() as int, old(self).spec_capacity() as int),
            ) =~= channels@.take(min(channels@.len() as int, old(self).spec_capacity() as int)));
        }
    }

    /// Hands the written channels out, consuming the writer.
    pub fn into_channels(self) -> (r: Vec<SurroundChannel>)
        ensures
            r@ == self.spec_channels(),
    {
        self.channels
    }
}

/// A bounded writer fed a sequence holds exactly the sequence's first
/// `min(N, C)` elements: the final length is `min(N, C)`, every held element
/// is the input element at the same index, and elements at or beyond index
/// `C` are not present. Together with the contract of `clear`, a fill after
/// `clear` depends only on the capacity and the input, as on a fresh writer.
pub proof fn lemma_writer_fill(n: int, c: int, channels: Seq<SurroundChannel>)
    requires
        n == channels.len(),
        0 <= c,
    ensures
        channels.take(min(n, c)).len() == min(n, c),
        forall|i: int| 0 <= i < min(n, c) ==> channels.take(min(n, c))[i] == channels[i],
{
}

/// The plugin-side implementation of the surround extension.
pub trait PluginSurroundImpl {
    /// Returns true if the given surround channel mask is supported.
    fn is_channel_mask_supported(&mut self, mask: SurroundChannels) -> bool;

    /// Fills the given writer with the surround channel map for the given
    /// port, if applicable. The channels should be written in audio-buffer
    /// channel order; the writer reports how many were kept.
    fn get_channel_map(&mut self, is_input: bool, port_index: u32, writer: &mut SurroundMapWriter)
        requires
            old(writer).wf(),
        ensures
            final(writer).wf(),
            final(writer).spec_capacity() == old(writer).spec_capacity(),
    ;
}

/// The dispatch entry bound into the `is_channel_mask_supported` slot.
/// Fails closed: a stale self-pointer returns the documented failure value,
/// false. The wire mask is adopted bit for bit — unknown bits travel
/// through to the implementation's mask unchanged.
pub fn is_channel_mask_supported<P: PluginSurroundImpl>(
    plugin: &mut Recovered<P>,
    channel_mask: u64,
) -> (r: bool)
    ensures
        *old(plugin) is Stale ==> r == false && *final(plugin) == *old(plugin),
{
    match plugin {
        Recovered::Live(p) => p.is_channel_mask_supported(
            SurroundChannels::from_bits_retain(channel_mask),
        ),
        Recovered::Stale => false,
    }
}

/// The dispatch entry bound into the `get_channel_map` slot: it sizes a
/// bounded writer to the capacity the caller put on the wire, lets the
/// implementation fill it, and reports the written count with the written
/// channels. Fails closed: a stale self-pointer reports zero channels.
pub fn get_channel_map<P: PluginSurroundImpl>(
    plugin: &mut Recovered<P>,
    is_input: bool,
    port_index: u32,
    channel_map_capacity: u32,
) -> (r: (u32, Vec<SurroundChannel>))
    ensures
        r.0 == r.1@.len(),
        r.0 <= channel_map_capacity,
        *old(plugin) is Stale ==> r.0 == 0 && *final(plugin) == *old(plugin),
{
    match plugin {
        Recovered::Live(p) => {
            let mut writer = SurroundMapWriter::new(channel_map_capacity as usize);
            p.get_channel_map(is_input, port_index, &mut writer);
            let count = writer.len();
            (count as u32, writer.into_channels())
        },
        Recovered::Stale => (0, Vec::new()),
    }
}

/// The fixed-shape function table a plugin publishes for the surround
/// extension: the self-pointer the entries will receive, and one optional
/// slot per operation — an absent slot means the operation is not offered,
/// which is a legitimate permanent state, not an error.
pub struct SurroundPluginTable<P> {
    /// What the table's self-pointer resolves to.
    pub plugin: Recovered<P>,
    /// Whether the `is_channel_mask_supported` slot is bound.
    pub has_is_channel_mask_supported: bool,
    /// Whether the `get_channel_map` slot is bound.
    pub has_get_channel_map: bool,
}

impl<P: PluginSurroundImpl> SurroundPluginTable<P> {
    /// The table builder: binds every slot to the dispatch entry
    /// specialized for the implementation type, around a live instance.
    pub fn build(plugin: P) -> (r: Self)
        ensures
            r.plugin == Recovered::<P>::Live(plugin),
            r.has_is_channel_mask_supported,
            r.has_get_channel_map,
    {
        SurroundPluginTable {
            plugin: Recovered::Live(plugin),
            has_is_channel_mask_supported: true,
            has_get_channel_map: true,
        }
    }
}

impl HostSurround {
    /// Notify the host that the surround configuration for one or more
    /// ports has changed. When the host's table has no `changed` slot the
    /// call degrades to a no-op.
    pub fn changed<H: HostSurroundImpl>(&self, handle: &mut SurroundHostTable<H>)
        ensures
            !old(handle).has_changed ==> *final(handle) == *old(handle),
            old(handle).host is Stale ==> *final(handle) == *old(handle),
    {
        if handle.has_changed {
            changed(&mut handle.host);
        }
    }
}

} // verus!
