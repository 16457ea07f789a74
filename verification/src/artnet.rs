//! The channel buffer of one universe: how macros write into it, how often it goes
//! out, and the Art-Net frame that carries it.

use crate::fixture::{
    channel_index, target_channel, ChannelList, ChannelWithResolution, ColourMacro, FixtureInstance,
    FixtureMacro, ValueMacro, CHANNELS_PER_UNIVERSE,
};
use artnet_protocol::{ArtCommand, Output};
use vstd::prelude::*;

verus! {

/// What the Art-Net crate reports when it cannot build a frame.
#[verifier::external_type_specification]
#[verifier::external_body]
pub struct ExArtNetProtocolError(artnet_protocol::Error);

/// The buffer after a list of writes, each an index and a byte, made in order.
pub open spec fn apply_writes(buffer: Seq<u8>, writes: Seq<(int, u8)>) -> Seq<u8>
    decreases writes.len(),
{
    if writes.len() == 0 {
        buffer
    } else {
        apply_writes(buffer, writes.drop_last()).update(writes.last().0, writes.last().1)
    }
}

/// Every write of the list addresses a channel of the universe.
pub open spec fn writes_in_universe(writes: Seq<(int, u8)>) -> bool {
    forall|j: int| 0 <= j < writes.len() ==> 0 <= (#[trigger] writes[j]).0 < 512
}

/// The write of one byte to one channel of a fixture; none if the channel falls
/// outside the universe.
pub open spec fn write_to(channel: u16, start_channel: u16, byte: u8) -> Seq<(int, u8)> {
    match channel_index(channel, start_channel) {
        Some(i) => seq![(i, byte)],
        None => Seq::empty(),
    }
}

/// The byte that a control macro sends to an 8-bit channel. A 16-bit value is scaled
/// down by 255 / 65535, rounding towards zero; an 8-bit value goes out as it is, and
/// as 255 if it is beyond 8 bits.
pub open spec fn lo_res_byte(value: u16, hi_res: bool) -> u8 {
    if hi_res {
        (value * 255 / 65535) as u8
    } else if value > 255 {
        255
    } else {
        value as u8
    }
}

/// The writes of a control macro to one of its channel references. A 16-bit
/// reference takes the value big-endian: the high byte to the coarse channel, the
/// low byte to the fine one.
pub open spec fn channel_writes(c: ChannelWithResolution, value: u16, hi_res: bool, start_channel: u16) -> Seq<(int, u8)> {
    match c {
        ChannelWithResolution::LoRes(channel) => write_to(channel, start_channel, lo_res_byte(value, hi_res)),
        ChannelWithResolution::HiRes((coarse, fine)) => write_to(coarse, start_channel, (value / 256) as u8)
            + write_to(fine, start_channel, (value % 256) as u8),
    }
}

/// The writes of a control macro with the given value to a list of channel references.
pub open spec fn control_writes(channels: Seq<ChannelWithResolution>, value: u16, hi_res: bool, start_channel: u16) -> Seq<(int, u8)>
    decreases channels.len(),
{
    if channels.len() == 0 {
        Seq::empty()
    } else {
        control_writes(channels.drop_last(), value, hi_res, start_channel)
            + channel_writes(channels.last(), value, hi_res, start_channel)
    }
}

/// The writes of one byte to each channel of a group.
pub open spec fn group_writes(channels: Seq<u16>, byte: u8, start_channel: u16) -> Seq<(int, u8)>
    decreases channels.len(),
{
    if channels.len() == 0 {
        Seq::empty()
    } else {
        group_writes(channels.drop_last(), byte, start_channel) + write_to(channels.last(), start_channel, byte)
    }
}

/// The writes of a colour macro. An additive fixture takes red, green and blue as
/// they are and the inverse of alpha as its white or lime; a subtractive fixture
/// takes the inverse of red, green and blue as cyan, magenta and yellow. A 16-bit
/// additive group is written nowhere: loading a project turns such a fixture down.
pub open spec fn colour_writes(m: ColourMacro, start_channel: u16) -> Seq<(int, u8)> {
    let c = m.current_value;
    match m.channels {
        ChannelList::AdditiveRGBW8(g) => group_writes(g.red@, c.r, start_channel)
            + group_writes(g.green@, c.g, start_channel)
            + group_writes(g.blue@, c.b, start_channel)
            + group_writes(g.white@, (255 - c.a) as u8, start_channel),
        ChannelList::AdditiveRGBL8(g) => group_writes(g.red@, c.r, start_channel)
            + group_writes(g.green@, c.g, start_channel)
            + group_writes(g.blue@, c.b, start_channel)
            + group_writes(g.lime@, (255 - c.a) as u8, start_channel),
        ChannelList::AdditiveRGB16(_) => Seq::empty(),
        ChannelList::Subtractive(g) => group_writes(g.cyan@, (255 - c.r) as u8, start_channel)
            + group_writes(g.magenta@, (255 - c.g) as u8, start_channel)
            + group_writes(g.yellow@, (255 - c.b) as u8, start_channel),
    }
}

/// The writes of one macro of a fixture that starts at `start_channel`.
pub open spec fn macro_writes(m: FixtureMacro, start_channel: u16) -> Seq<(int, u8)> {
    match m {
        FixtureMacro::Control(v) => control_writes(v.channels@, v.current_value, v.hi_res(), start_channel),
        FixtureMacro::Colour(c) => colour_writes(c, start_channel),
    }
}

/// The writes of a list of macros, in the order of the list.
pub open spec fn macros_writes(macros: Seq<FixtureMacro>, start_channel: u16) -> Seq<(int, u8)>
    decreases macros.len(),
{
    if macros.len() == 0 {
        Seq::empty()
    } else {
        macros_writes(macros.drop_last(), start_channel) + macro_writes(macros.last(), start_channel)
    }
}

/// The writes of the macros of a fixture's active mode.
pub open spec fn fixture_writes(f: FixtureInstance) -> Seq<(int, u8)> {
    macros_writes(f.config.active_mode.macros@, f.start_channel)
}

/// The writes of a list of fixtures, in the order of the list.
pub open spec fn fixtures_writes(fixtures: Seq<FixtureInstance>) -> Seq<(int, u8)>
    decreases fixtures.len(),
{
    if fixtures.len() == 0 {
        Seq::empty()
    } else {
        fixtures_writes(fixtures.drop_last()) + fixture_writes(fixtures.last())
    }
}

/// Writes made one list after another are the writes of the two lists joined.
pub proof fn lemma_apply_writes_concat(buffer: Seq<u8>, a: Seq<(int, u8)>, b: Seq<(int, u8)>)
    ensures
        apply_writes(buffer, a + b) == apply_writes(apply_writes(buffer, a), b),
    decreases b.len(),
{
    if b.len() == 0 {
        assert(a + b =~= a);
    } else {
        lemma_apply_writes_concat(buffer, a, b.drop_last());
        assert((a + b).drop_last() =~= a + b.drop_last());
        assert((a + b).last() == b.last());
    }
}

/// Writes within the universe leave the buffer as long as it was.
pub proof fn lemma_apply_writes_len(buffer: Seq<u8>, writes: Seq<(int, u8)>)
    requires
        writes_in_universe(writes),
        buffer.len() == 512,
    ensures
        apply_writes(buffer, writes).len() == 512,
    decreases writes.len(),
{
    if writes.len() > 0 {
        assert(writes_in_universe(writes.drop_last())) by {
            assert forall|j: int| 0 <= j < writes.drop_last().len() implies 0 <= (#[trigger] writes.drop_last()[j]).0 < 512 by {
                assert(writes.drop_last()[j] == writes[j]);
            }
        }
        lemma_apply_writes_len(buffer, writes.drop_last());
    }
}

/// The last write to a channel decides its byte, whichever fixture or macro made
/// it, and a channel that no write addresses keeps the byte it had.
pub proof fn lemma_last_write_wins(buffer: Seq<u8>, writes: Seq<(int, u8)>, channel: int)
    requires
        writes_in_universe(writes),
        buffer.len() == 512,
        0 <= channel < 512,
    ensures
        (forall|j: int| 0 <= j < writes.len() ==> (#[trigger] writes[j]).0 != channel) ==> apply_writes(
            buffer,
            writes,
        )[channel] == buffer[channel],
        forall|j: int|
            0 <= j < writes.len() && (#[trigger] writes[j]).0 == channel && (forall|k: int|
                j < k < writes.len() ==> (#[trigger] writes[k]).0 != channel) ==> apply_writes(buffer, writes)[channel]
                == writes[j].1,
    decreases writes.len(),
{
    if writes.len() > 0 {
        let front = writes.drop_last();
        assert(writes_in_universe(front)) by {
            assert forall|j: int| 0 <= j < front.len() implies 0 <= (#[trigger] front[j]).0 < 512 by {
                assert(front[j] == writes[j]);
            }
        }
        lemma_last_write_wins(buffer, front, channel);
        lemma_apply_writes_len(buffer, front);
        assert(0 <= writes.last().0 < 512) by {
            assert(writes.last() == writes[writes.len() - 1]);
        }
        assert forall|j: int| 0 <= j < front.len() implies front[j] == writes[j] by {}
        if writes.last().0 != channel {
            assert forall|j: int|
                0 <= j < writes.len() && (#[trigger] writes[j]).0 == channel && (forall|k: int|
                    j < k < writes.len() ==> (#[trigger] writes[k]).0 != channel) implies apply_writes(buffer, writes)[channel]
                    == writes[j].1 by {
                assert(j < front.len());
                assert(front[j] == writes[j]);
                assert forall|k: int| j < k < front.len() implies (#[trigger] front[k]).0 != channel by {
                    assert(front[k] == writes[k]);
                }
            }
            if forall|j: int| 0 <= j < writes.len() ==> (#[trigger] writes[j]).0 != channel {
                assert forall|j: int| 0 <= j < front.len() implies (#[trigger] front[j]).0 != channel by {
                    assert(front[j] == writes[j]);
                }
            }
        } else {
            assert forall|j: int|
                0 <= j < writes.len() && (#[trigger] writes[j]).0 == channel && (forall|k: int|
                    j < k < writes.len() ==> (#[trigger] writes[k]).0 != channel) implies apply_writes(buffer, writes)[channel]
                    == writes[j].1 by {
                if j < writes.len() - 1 {
                    assert(writes[writes.len() - 1].0 != channel);
                }
            }
        }
    }
}

/// Joined lists of writes within the universe stay within it.
proof fn lemma_in_universe_concat(a: Seq<(int, u8)>, b: Seq<(int, u8)>)
    requires
        writes_in_universe(a),
        writes_in_universe(b),
    ensures
        writes_in_universe(a + b),
{
    assert forall|j: int| 0 <= j < (a + b).len() implies 0 <= (#[trigger] (a + b)[j]).0 < 512 by {
        if j < a.len() {
            assert((a + b)[j] == a[j]);
        } else {
            assert((a + b)[j] == b[j - a.len()]);
        }
    }
}

proof fn lemma_group_writes_in_universe(channels: Seq<u16>, byte: u8, start_channel: u16)
    ensures
        writes_in_universe(group_writes(channels, byte, start_channel)),
    decreases channels.len(),
{
    if channels.len() > 0 {
        lemma_group_writes_in_universe(channels.drop_last(), byte, start_channel);
        lemma_in_universe_concat(
            group_writes(channels.drop_last(), byte, start_channel),
            write_to(channels.last(), start_channel, byte),
        );
    }
}

proof fn lemma_control_writes_in_universe(channels: Seq<ChannelWithResolution>, value: u16, hi_res: bool, start_channel: u16)
    ensures
        writes_in_universe(control_writes(channels, value, hi_res, start_channel)),
    decreases channels.len(),
{
    if channels.len() > 0 {
        lemma_control_writes_in_universe(channels.drop_last(), value, hi_res, start_channel);
        let w = channel_writes(channels.last(), value, hi_res, start_channel);
        assert(writes_in_universe(w)) by {
            match channels.last() {
                ChannelWithResolution::LoRes(channel) => {},
                ChannelWithResolution::HiRes((coarse, fine)) => {
                    lemma_in_universe_concat(
                        write_to(coarse, start_channel, (value / 256) as u8),
                        write_to(fine, start_channel, (value % 256) as u8),
                    );
                },
            }
        }
        lemma_in_universe_concat(control_writes(channels.drop_last(), value, hi_res, start_channel), w);
    }
}

/// Whatever a macro writes, it writes within the universe.
pub proof fn lemma_macro_writes_in_universe(m: FixtureMacro, start_channel: u16)
    ensures
        writes_in_universe(macro_writes(m, start_channel)),
{
    match m {
        FixtureMacro::Control(v) => {
            lemma_control_writes_in_universe(v.channels@, v.current_value, v.hi_res(), start_channel);
        },
        FixtureMacro::Colour(cm) => {
            let c = cm.current_value;
            match cm.channels {
                ChannelList::AdditiveRGBW8(g) => {
                    lemma_group_writes_in_universe(g.red@, c.r, start_channel);
                    lemma_group_writes_in_universe(g.green@, c.g, start_channel);
                    lemma_group_writes_in_universe(g.blue@, c.b, start_channel);
                    lemma_group_writes_in_universe(g.white@, (255 - c.a) as u8, start_channel);
                    let w1 = group_writes(g.red@, c.r, start_channel);
                    let w2 = group_writes(g.green@, c.g, start_channel);
                    let w3 = group_writes(g.blue@, c.b, start_channel);
                    let w4 = group_writes(g.white@, (255 - c.a) as u8, start_channel);
                    lemma_in_universe_concat(w1, w2);
                    lemma_in_universe_concat(w1 + w2, w3);
                    lemma_in_universe_concat(w1 + w2 + w3, w4);
                },
                ChannelList::AdditiveRGBL8(g) => {
                    lemma_group_writes_in_universe(g.red@, c.r, start_channel);
                    lemma_group_writes_in_universe(g.green@, c.g, start_channel);
                    lemma_group_writes_in_universe(g.blue@, c.b, start_channel);
                    lemma_group_writes_in_universe(g.lime@, (255 - c.a) as u8, start_channel);
                    let w1 = group_writes(g.red@, c.r, start_channel);
                    let w2 = group_writes(g.green@, c.g, start_channel);
                    let w3 = group_writes(g.blue@, c.b, start_channel);
                    let w4 = group_writes(g.lime@, (255 - c.a) as u8, start_channel);
                    lemma_in_universe_concat(w1, w2);
                    lemma_in_universe_concat(w1 + w2, w3);
                    lemma_in_universe_concat(w1 + w2 + w3, w4);
                },
                ChannelList::AdditiveRGB16(_) => {},
                ChannelList::Subtractive(g) => {
                    let w1 = group_writes(g.cyan@, (255 - c.r) as u8, start_channel);
                    let w2 = group_writes(g.magenta@, (255 - c.g) as u8, start_channel);
                    let w3 = group_writes(g.yellow@, (255 - c.b) as u8, start_channel);
                    lemma_group_writes_in_universe(g.cyan@, (255 - c.r) as u8, start_channel);
                    lemma_group_writes_in_universe(g.magenta@, (255 - c.g) as u8, start_channel);
                    lemma_group_writes_in_universe(g.yellow@, (255 - c.b) as u8, start_channel);
                    lemma_in_universe_concat(w1, w2);
                    lemma_in_universe_concat(w1 + w2, w3);
                },
            }
        },
    }
}

/// Whatever a list of macros writes, it writes within the universe.
pub proof fn lemma_macros_writes_in_universe(macros: Seq<FixtureMacro>, start_channel: u16)
    ensures
        writes_in_universe(macros_writes(macros, start_channel)),
    decreases macros.len(),
{
    if macros.len() > 0 {
        lemma_macros_writes_in_universe(macros.drop_last(), start_channel);
        lemma_macro_writes_in_universe(macros.last(), start_channel);
        lemma_in_universe_concat(
            macros_writes(macros.drop_last(), start_channel),
            macro_writes(macros.last(), start_channel),
        );
    }
}

/// Whatever a list of fixtures writes, it writes within the universe.
pub proof fn lemma_fixtures_writes_in_universe(fixtures: Seq<FixtureInstance>)
    ensures
        writes_in_universe(fixtures_writes(fixtures)),
    decreases fixtures.len(),
{
    if fixtures.len() > 0 {
        lemma_fixtures_writes_in_universe(fixtures.drop_last());
        lemma_macros_writes_in_universe(fixtures.last().config.active_mode.macros@, fixtures.last().start_channel);
        lemma_in_universe_concat(fixtures_writes(fixtures.drop_last()), fixture_writes(fixtures.last()));
    }
}

/// Writes one byte to one channel of a fixture, if the channel lies in the universe.
pub fn write_channel(channels: &mut Vec<u8>, channel: u16, start_channel: u16, byte: u8)
    requires
        old(channels).len() == 512,
    ensures
        final(channels).len() == 512,
        final(channels)@ == apply_writes(old(channels)@, write_to(channel, start_channel, byte)),
{
    match target_channel(channel, start_channel) {
        Some(i) => {
            channels[i] = byte;
            proof {
                let w = write_to(channel, start_channel, byte);
                assert(w.drop_last() =~= Seq::<(int, u8)>::empty());
                assert(apply_writes(old(channels)@, w.drop_last()) == old(channels)@);
                assert(w.last() == (i as int, byte));
            }
        },
        None => {},
    }
}

fn write_group(channels: &mut Vec<u8>, group: &Vec<u16>, byte: u8, start_channel: u16)
    requires
        old(channels).len() == 512,
    ensures
        final(channels).len() == 512,
        final(channels)@ == apply_writes(old(channels)@, group_writes(group@, byte, start_channel)),
{
    let n = group.len();
    let mut i: usize = 0;
    assert(group@.take(0) =~= Seq::<u16>::empty());
    while i < n
        invariant
            n == group.len(),
            i <= n,
            channels.len() == 512,
            channels@ == apply_writes(old(channels)@, group_writes(group@.take(i as int), byte, start_channel)),
        decreases n - i,
    {
        let ghost before = channels@;
        write_channel(channels, group[i], start_channel, byte);
        proof {
            let prefix = group@.take(i as int + 1);
            assert(prefix.drop_last() =~= group@.take(i as int));
            assert(prefix.last() == group@[i as int]);
            lemma_apply_writes_concat(
                old(channels)@,
                group_writes(group@.take(i as int), byte, start_channel),
                write_to(group@[i as int], start_channel, byte),
            );
        }
        i += 1;
    }
    assert(group@.take(n as int) =~= group@);
}

/// The byte that a control macro sends to an 8-bit channel.
pub fn scale_to_byte(value: u16, hi_res: bool) -> (byte: u8)
    ensures
        byte == lo_res_byte(value, hi_res),
{
    if hi_res {
        ((value as u32) * 255 / 65535) as u8
    } else if value > 255 {
        255
    } else {
        value as u8
    }
}

fn write_control(channels: &mut Vec<u8>, m: &ValueMacro, start_channel: u16)
    requires
        old(channels).len() == 512,
    ensures
        final(channels).len() == 512,
        final(channels)@ == apply_writes(
            old(channels)@,
            control_writes(m.channels@, m.current_value, m.hi_res(), start_channel),
        ),
{
    let hi_res = m.is_hi_res();
    let value = m.current_value;
    let lo = scale_to_byte(value, hi_res);
    let n = m.channels.len();
    let mut i: usize = 0;
    assert(m.channels@.take(0) =~= Seq::<ChannelWithResolution>::empty());
    while i < n
        invariant
            n == m.channels.len(),
            i <= n,
            channels.len() == 512,
            value == m.current_value,
            hi_res == m.hi_res(),
            lo == lo_res_byte(value, hi_res),
            channels@ == apply_writes(
                old(channels)@,
                control_writes(m.channels@.take(i as int), value, hi_res, start_channel),
            ),
        decreases n - i,
    {
        let ghost before = channels@;
        match m.channels[i] {
            ChannelWithResolution::LoRes(channel) => {
                write_channel(channels, channel, start_channel, lo);
            },
            ChannelWithResolution::HiRes((coarse, fine)) => {
                write_channel(channels, coarse, start_channel, (value / 256) as u8);
                write_channel(channels, fine, start_channel, (value % 256) as u8);
                proof {
                    lemma_apply_writes_concat(
                        before,
                        write_to(coarse, start_channel, (value / 256) as u8),
                        write_to(fine, start_channel, (value % 256) as u8),
                    );
                }
            },
        }
        proof {
            let prefix = m.channels@.take(i as int + 1);
            assert(prefix.drop_last() =~= m.channels@.take(i as int));
            assert(prefix.last() == m.channels@[i as int]);
            lemma_apply_writes_concat(
                old(channels)@,
                control_writes(m.channels@.take(i as int), value, hi_res, start_channel),
                channel_writes(m.channels@[i as int], value, hi_res, start_channel),
            );
        }
        i += 1;
    }
    assert(m.channels@.take(n as int) =~= m.channels@);
}

fn write_colour(channels: &mut Vec<u8>, m: &ColourMacro, start_channel: u16)
    requires
        old(channels).len() == 512,
    ensures
        final(channels).len() == 512,
        final(channels)@ == apply_writes(old(channels)@, colour_writes(*m, start_channel)),
{
    let c = m.current_value.to_opaque();
    let mix = m.current_value.white_mix();
    let ghost b0 = channels@;
    match &m.channels {
        ChannelList::AdditiveRGBW8(g) => {
            write_group(channels, &g.red, c.r, start_channel);
            write_group(channels, &g.green, c.g, start_channel);
            write_group(channels, &g.blue, c.b, start_channel);
            write_group(channels, &g.white, mix, start_channel);
            proof {
                let w1 = group_writes(g.red@, c.r, start_channel);
                let w2 = group_writes(g.green@, c.g, start_channel);
                let w3 = group_writes(g.blue@, c.b, start_channel);
                let w4 = group_writes(g.white@, mix, start_channel);
                lemma_apply_writes_concat(b0, w1, w2);
                lemma_apply_writes_concat(b0, w1 + w2, w3);
                lemma_apply_writes_concat(b0, w1 + w2 + w3, w4);
            }
        },
        ChannelList::AdditiveRGBL8(g) => {
            write_group(channels, &g.red, c.r, start_channel);
            write_group(channels, &g.green, c.g, start_channel);
            write_group(channels, &g.blue, c.b, start_channel);
            write_group(channels, &g.lime, mix, start_channel);
            proof {
                let w1 = group_writes(g.red@, c.r, start_channel);
                let w2 = group_writes(g.green@, c.g, start_channel);
                let w3 = group_writes(g.blue@, c.b, start_channel);
                let w4 = group_writes(g.lime@, mix, start_channel);
                lemma_apply_writes_concat(b0, w1, w2);
                lemma_apply_writes_concat(b0, w1 + w2, w3);
                lemma_apply_writes_concat(b0, w1 + w2 + w3, w4);
            }
        },
        ChannelList::AdditiveRGB16(_) => {},
        ChannelList::Subtractive(g) => {
            let (cyan, magenta, yellow) = m.current_value.to_cmy();
            write_group(channels, &g.cyan, cyan, start_channel);
            write_group(channels, &g.magenta, magenta, start_channel);
            write_group(channels, &g.yellow, yellow, start_channel);
            proof {
                let w1 = group_writes(g.cyan@, cyan, start_channel);
                let w2 = group_writes(g.magenta@, magenta, start_channel);
                let w3 = group_writes(g.yellow@, yellow, start_channel);
                lemma_apply_writes_concat(b0, w1, w2);
                lemma_apply_writes_concat(b0, w1 + w2, w3);
            }
        },
    }
}

/// Writes the current value of one macro into the channels that it owns.
pub fn write_macro(channels: &mut Vec<u8>, m: &FixtureMacro, start_channel: u16)
    requires
        old(channels).len() == 512,
    ensures
        final(channels).len() == 512,
        final(channels)@ == apply_writes(old(channels)@, macro_writes(*m, start_channel)),
{
    match m {
        FixtureMacro::Control(v) => write_control(channels, v, start_channel),
        FixtureMacro::Colour(c) => write_colour(channels, c, start_channel),
    }
}

/// Writes the macros of a fixture's active mode, in their order.
pub fn write_fixture(channels: &mut Vec<u8>, f: &FixtureInstance)
    requires
        old(channels).len() == 512,
    ensures
        final(channels).len() == 512,
        final(channels)@ == apply_writes(old(channels)@, fixture_writes(*f)),
{
    let macros = &f.config.active_mode.macros;
    let n = macros.len();
    let mut i: usize = 0;
    assert(macros@.take(0) =~= Seq::<FixtureMacro>::empty());
    while i < n
        invariant
            n == macros.len(),
            i <= n,
            channels.len() == 512,
            channels@ == apply_writes(old(channels)@, macros_writes(macros@.take(i as int), f.start_channel)),
        decreases n - i,
    {
        write_macro(channels, &macros[i], f.start_channel);
        proof {
            let prefix = macros@.take(i as int + 1);
            assert(prefix.drop_last() =~= macros@.take(i as int));
            assert(prefix.last() == macros@[i as int]);
            lemma_apply_writes_concat(
                old(channels)@,
                macros_writes(macros@.take(i as int), f.start_channel),
                macro_writes(macros@[i as int], f.start_channel),
            );
        }
        i += 1;
    }
    assert(macros@.take(n as int) =~= macros@);
}

/// Writes the macros of every fixture, fixture by fixture in the order of the list.
/// Where two macros address one channel, the later write stands.
pub fn write_fixtures(channels: &mut Vec<u8>, fixtures: &Vec<FixtureInstance>)
    requires
        old(channels).len() == 512,
    ensures
        final(channels).len() == 512,
        final(channels)@ == apply_writes(old(channels)@, fixtures_writes(fixtures@)),
{
    let n = fixtures.len();
    let mut i: usize = 0;
    assert(fixtures@.take(0) =~= Seq::<FixtureInstance>::empty());
    while i < n
        invariant
            n == fixtures.len(),
            i <= n,
            channels.len() == 512,
            channels@ == apply_writes(old(channels)@, fixtures_writes(fixtures@.take(i as int))),
        decreases n - i,
    {
        write_fixture(channels, &fixtures[i]);
        proof {
            let prefix = fixtures@.take(i as int + 1);
            assert(prefix.drop_last() =~= fixtures@.take(i as int));
            assert(prefix.last() == fixtures@[i as int]);
            lemma_apply_writes_concat(
                old(channels)@,
                fixtures_writes(fixtures@.take(i as int)),
                fixture_writes(fixtures@[i as int]),
            );
        }
        i += 1;
    }
    assert(fixtures@.take(n as int) =~= fixtures@);
}

/// A universe of zeroes.
pub open spec fn zeroes() -> Seq<u8> {
    Seq::new(512, |i: int| 0u8)
}

/// Replaces the buffer by a universe of zeroes.
pub fn zero(channels: &mut Vec<u8>)
    ensures
        final(channels)@ == zeroes(),
{
    let mut fresh: Vec<u8> = Vec::new();
    let mut i: u16 = 0;
    while i < CHANNELS_PER_UNIVERSE
        invariant
            i <= 512,
            fresh.len() == i,
            forall|k: int| 0 <= k < i ==> fresh[k] == 0,
        decreases 512 - i,
    {
        fresh.push(0);
        i += 1;
    }
    assert(fresh@ =~= zeroes());
    *channels = fresh;
}

/// Calls `rand::thread_rng` and `Rng::gen` for one byte. Any byte may come back.
#[verifier::external_body]
fn random_byte() -> (byte: u8) {
    rand::Rng::gen::<u8>(&mut rand::thread_rng())
}

/// Replaces every byte of the buffer by a random one.
pub fn random(channels: &mut Vec<u8>)
    ensures
        final(channels).len() == old(channels).len(),
{
    let n = channels.len();
    let mut i: usize = 0;
    while i < n
        invariant
            channels.len() == n,
            i <= n,
        decreases n - i,
    {
        channels[i] = random_byte();
        i += 1;
    }
}

/// An address and a port, as text and number.
#[derive(Debug)]
pub struct Endpoint {
    pub ip: String,
    pub port: u16,
}

/// How frames reach the fixtures: to everyone on the network, or from one interface
/// to one destination.
#[derive(Debug)]
pub enum ArtNetMode {
    Broadcast,
    /// The interface to send from, then the destination.
    Unicast(Endpoint, Endpoint),
}

/// The port that broadcast frames are sent from.
pub const BROADCAST_SOURCE_PORT: u16 = 6455;

/// The port that Art-Net nodes listen on.
pub const BROADCAST_DESTINATION_PORT: u16 = 6454;

/// Where a mode sends from and where it sends to. A broadcast goes from port 6455
/// of every interface to port 6454 of everyone on the network.
pub fn endpoints(mode: &ArtNetMode) -> (ends: (Endpoint, Endpoint))
    ensures
        match *mode {
            ArtNetMode::Broadcast => {
                &&& ends.0.ip@ == "0.0.0.0"@
                &&& ends.0.port == 6455
                &&& ends.1.ip@ == "255.255.255.255"@
                &&& ends.1.port == 6454
            },
            ArtNetMode::Unicast(s, d) => {
                &&& ends.0.ip@ == s.ip@
                &&& ends.0.port == s.port
                &&& ends.1.ip@ == d.ip@
                &&& ends.1.port == d.port
            },
        },
{
    match mode {
        ArtNetMode::Broadcast => (
            Endpoint { ip: String::from_str("0.0.0.0"), port: BROADCAST_SOURCE_PORT },
            Endpoint { ip: String::from_str("255.255.255.255"), port: BROADCAST_DESTINATION_PORT },
        ),
        ArtNetMode::Unicast(s, d) => (
            Endpoint { ip: s.ip.clone(), port: s.port },
            Endpoint { ip: d.ip.clone(), port: d.port },
        ),
    }
}

/// Why no Art-Net interface could be set up.
#[derive(Clone, Copy, Debug, PartialEq, Eq, Structural)]
pub enum ArtNetError {
    /// An update frequency of zero gives no interval between frames.
    ZeroFrequency,
    /// Neither the command line nor the project says how to reach the fixtures.
    NoSettings,
}

/// The Art-Net frame that carries `data` to a universe: the protocol's name, the
/// code of a data packet (low byte first), protocol version 14, no sequence number
/// and no physical port, the universe (low byte first), the length of the data
/// (high byte first), then the data, followed by one zero if its length is odd.
pub open spec fn art_dmx_frame(universe: u8, data: Seq<u8>) -> Seq<u8> {
    let padded: int = if data.len() % 2 == 0 { data.len() as int } else { data.len() as int + 1 };
    seq![65u8, 114u8, 116u8, 45u8, 78u8, 101u8, 116u8, 0u8, 0u8, 80u8, 0u8, 14u8, 0u8, 0u8, universe, 0u8]
        + seq![(padded / 256) as u8, (padded % 256) as u8] + data + (if data.len() % 2 == 0 {
        Seq::<u8>::empty()
    } else {
        seq![0u8]
    })
}

/// Calls `ArtCommand::write_to_buffer` on an `Output` command addressed to
/// `universe` that carries `data`, all other fields as `Output::default` has them.
/// The crate writes the frame stated here, and refuses data that is empty or longer
/// than 512 bytes.
#[verifier::external_body]
fn write_output_frame(universe: u8, data: Vec<u8>) -> (frame: Result<Vec<u8>, artnet_protocol::Error>)
    ensures
        frame is Ok <==> 1 <= data.len() <= 512,
        frame matches Ok(bytes) ==> bytes@ == art_dmx_frame(universe, data@),
{
    ArtCommand::Output(Output { port_address: universe.into(), data: data.into(), ..Output::default() })
        .write_to_buffer()
}

/// The Art-Net frame for a buffer of channels, if the protocol can carry it: it
/// carries from 1 to 512 channels.
pub fn encode_frame(universe: u8, channels: &Vec<u8>) -> (frame: Option<Vec<u8>>)
    ensures
        frame is Some <==> 1 <= channels.len() <= 512,
        frame matches Some(bytes) ==> bytes@ == art_dmx_frame(universe, channels@),
{
    let data = channels.clone();
    assert(data@ =~= channels@);
    match write_output_frame(universe, data) {
        Ok(bytes) => Some(bytes),
        Err(_) => None,
    }
}

/// The least whole number of milliseconds that is no shorter than one period of
/// `frequency` hertz.
pub open spec fn interval_ms(frequency: u64) -> int {
    (1000 + frequency - 1) / (frequency as int)
}

/// The side of the engine that faces the wire: the bytes of the frame last built,
/// the least interval between two frames, and when the last frame went out.
#[derive(Debug)]
pub struct ArtNetInterface {
    channels: Vec<u8>,
    update_interval: u64,
    last_sent: Option<u64>,
    mode_in_use: ArtNetMode,
    universe: u8,
}

impl ArtNetInterface {
    #[verifier::type_invariant]
    pub closed spec fn wf(self) -> bool {
        self.channels@.len() == 512
    }

    /// The bytes of the frame last built; zeroes before the first.
    pub closed spec fn state(self) -> Seq<u8> {
        self.channels@
    }

    /// The least number of milliseconds between two frames.
    pub closed spec fn update_interval(self) -> u64 {
        self.update_interval
    }

    /// The clock reading at which the last frame went out, if any has.
    pub closed spec fn last_sent(self) -> Option<u64> {
        self.last_sent
    }

    pub closed spec fn mode(self) -> ArtNetMode {
        self.mode_in_use
    }

    pub closed spec fn universe(self) -> u8 {
        self.universe
    }

    /// A frame is due when none has gone out yet, or when the interval has passed
    /// since the last one went out.
    pub open spec fn due(self, now: u64) -> bool {
        match self.last_sent() {
            Some(t) => now >= t && now - t >= self.update_interval(),
            None => true,
        }
    }

    /// The bytes that an interface last built are a whole universe.
    pub proof fn lemma_state_len(self)
        requires
            self.wf(),
        ensures
            self.state().len() == 512,
    {
    }

    /// Sets up the interface for a mode, a frequency in hertz and a universe. Nothing
    /// has been sent yet. A frequency of zero is turned down.
    pub fn new(mode: ArtNetMode, update_frequency: u64, universe: u8) -> (made: Result<ArtNetInterface, ArtNetError>)
        ensures
            made is Ok <==> update_frequency > 0,
            update_frequency == 0 ==> made == Err::<ArtNetInterface, ArtNetError>(ArtNetError::ZeroFrequency),
            made matches Ok(a) ==> {
                &&& a.wf()
                &&& a.state() == zeroes()
                &&& a.update_interval() == interval_ms(update_frequency)
                &&& a.last_sent() is None
                &&& a.mode() == mode
                &&& a.universe() == universe
            },
    {
        if update_frequency == 0 {
            return Err(ArtNetError::ZeroFrequency);
        }
        let mut channels: Vec<u8> = Vec::new();
        zero(&mut channels);
        let interval: u64 = if update_frequency >= 1000 {
            1
        } else {
            (1000 + update_frequency - 1) / update_frequency
        };
        assert(interval == interval_ms(update_frequency)) by (nonlinear_arith)
            requires
                update_frequency > 0,
                interval == if update_frequency >= 1000 {
                    1
                } else {
                    (1000 + update_frequency - 1) / (update_frequency as int)
                },
        ;
        Ok(ArtNetInterface { channels, update_interval: interval, last_sent: None, mode_in_use: mode, universe })
    }

    /// Builds the next frame if one is due at `now`. The frame's bytes are those of
    /// `channels_state`, over which, if `apply_macros` is set, each fixture's macros
    /// have written their values. When no frame is due nothing changes.
    pub fn update(
        &mut self,
        channels_state: &Vec<u8>,
        fixtures: &Vec<FixtureInstance>,
        apply_macros: bool,
        now: u64,
    ) -> (frame: Option<Vec<u8>>)
        requires
            channels_state.len() == 512,
        ensures
            final(self).wf(),
            frame is Some <==> old(self).due(now),
            !old(self).due(now) ==> *final(self) == *old(self),
            final(self).update_interval() == old(self).update_interval(),
            final(self).last_sent() == old(self).last_sent(),
            final(self).mode() == old(self).mode(),
            final(self).universe() == old(self).universe(),
            old(self).due(now) ==> final(self).state() == if apply_macros {
                apply_writes(channels_state@, fixtures_writes(fixtures@))
            } else {
                channels_state@
            },
            frame matches Some(bytes) ==> bytes@ == art_dmx_frame(old(self).universe(), final(self).state()),
    {
        proof {
            use_type_invariant(&*self);
        }
        let due = match self.last_sent {
            Some(t) => now >= t && now - t >= self.update_interval,
            None => true,
        };
        if !due {
            return None;
        }
        let mut next = channels_state.clone();
        assert(next@ =~= channels_state@);
        if apply_macros {
            write_fixtures(&mut next, fixtures);
        }
        let frame = encode_frame(self.universe, &next);
        self.channels = next;
        frame
    }

    /// Builds a frame from `channels_state` as it is, whether or not one is due.
    pub fn flush(&mut self, channels_state: &Vec<u8>) -> (frame: Vec<u8>)
        requires
            channels_state.len() == 512,
        ensures
            final(self).wf(),
            final(self).state() == channels_state@,
            frame@ == art_dmx_frame(old(self).universe(), channels_state@),
            final(self).update_interval() == old(self).update_interval(),
            final(self).last_sent() == old(self).last_sent(),
            final(self).mode() == old(self).mode(),
            final(self).universe() == old(self).universe(),
    {
        proof {
            use_type_invariant(&*self);
        }
        let next = channels_state.clone();
        assert(next@ =~= channels_state@);
        let frame = encode_frame(self.universe, &next);
        self.channels = next;
        match frame {
            Some(bytes) => bytes,
            None => Vec::new(),
        }
    }

    /// Records that a frame went out at `now`: the next one is due an interval later.
    pub fn mark_sent(&mut self, now: u64)
        ensures
            final(self).wf(),
            final(self).last_sent() == Some(now),
            final(self).state() == old(self).state(),
            final(self).update_interval() == old(self).update_interval(),
            final(self).mode() == old(self).mode(),
            final(self).universe() == old(self).universe(),
    {
        proof {
            use_type_invariant(&*self);
        }
        self.last_sent = Some(now);
    }

    /// The bytes of the frame last built.
    pub fn get_state(&self) -> (state: &Vec<u8>)
        ensures
            state@ == self.state(),
            state@.len() == 512,
    {
        proof {
            use_type_invariant(self);
        }
        &self.channels
    }

    /// The mode that the interface was set up for.
    pub fn mode_in_use(&self) -> (mode: &ArtNetMode)
        ensures
            *mode == self.mode(),
    {
        &self.mode_in_use
    }

    /// The least number of milliseconds between two frames.
    pub fn interval(&self) -> (ms: u64)
        ensures
            ms == self.update_interval(),
    {
        self.update_interval
    }
}

} // verus!
