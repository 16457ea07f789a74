//! Fixture configurations, their channel mappings and macros, and fixture instances.

use crate::animation::Animation;
use crate::colour::{default_rgb, Colour};
use vstd::prelude::*;

verus! {

/// A universe holds this many channels.
pub const CHANNELS_PER_UNIVERSE: u16 = 512;

/// Two optional strings hold the same text, or are both absent.
pub open spec fn same_text(a: Option<String>, b: Option<String>) -> bool {
    match (a, b) {
        (Some(x), Some(y)) => x@ == y@,
        (None, None) => true,
        _ => false,
    }
}

fn clone_text(a: &Option<String>) -> (c: Option<String>)
    ensures
        same_text(c, *a),
{
    match a {
        Some(s) => Some(s.clone()),
        None => None,
    }
}

/// A labelled range of values of one channel, for documentation.
#[derive(Debug)]
pub struct RangeDescription {
    pub range: [u8; 2],
    pub label: String,
    pub notes: Option<String>,
}

impl RangeDescription {
    pub open spec fn same(self, other: RangeDescription) -> bool {
        &&& self.range == other.range
        &&& self.label@ == other.label@
        &&& same_text(self.notes, other.notes)
    }

    /// Whether `value` lies in the range, both ends included.
    pub fn contains(&self, value: u8) -> (inside: bool)
        ensures
            inside == (self.range[0] <= value && value <= self.range[1]),
    {
        self.range[0] <= value && value <= self.range[1]
    }
}

impl Clone for RangeDescription {
    fn clone(&self) -> (c: Self)
        ensures
            c.same(*self),
    {
        RangeDescription {
            range: self.range,
            label: self.label.clone(),
            notes: clone_text(&self.notes),
        }
    }
}

/// Two lists of ranges hold the same ranges in the same order.
pub open spec fn same_ranges(a: Seq<RangeDescription>, b: Seq<RangeDescription>) -> bool {
    &&& a.len() == b.len()
    &&& forall|i: int| 0 <= i < a.len() ==> (#[trigger] a[i]).same(b[i])
}

pub open spec fn same_range_list(a: Option<Vec<RangeDescription>>, b: Option<Vec<RangeDescription>>) -> bool {
    match (a, b) {
        (Some(x), Some(y)) => same_ranges(x@, y@),
        (None, None) => true,
        _ => false,
    }
}

fn clone_ranges(v: &Vec<RangeDescription>) -> (c: Vec<RangeDescription>)
    ensures
        same_ranges(c@, v@),
{
    let mut c: Vec<RangeDescription> = Vec::new();
    let n = v.len();
    let mut i: usize = 0;
    while i < n
        invariant
            n == v.len(),
            i <= n,
            c.len() == i,
            forall|k: int| 0 <= k < i ==> (#[trigger] c[k]).same(v[k]),
        decreases n - i,
    {
        c.push(v[i].clone());
        i += 1;
    }
    c
}

/// One physical channel of a fixture: its one-indexed number within the fixture, an
/// optional home value, and what its values mean.
#[derive(Debug)]
pub struct Mapping {
    pub channel: u16,
    pub label: String,
    pub notes: Option<String>,
    pub home: Option<u8>,
    pub ranges: Option<Vec<RangeDescription>>,
}

impl Mapping {
    pub open spec fn same(self, other: Mapping) -> bool {
        &&& self.channel == other.channel
        &&& self.label@ == other.label@
        &&& same_text(self.notes, other.notes)
        &&& self.home == other.home
        &&& same_range_list(self.ranges, other.ranges)
    }
}

impl Clone for Mapping {
    fn clone(&self) -> (c: Self)
        ensures
            c.same(*self),
    {
        Mapping {
            channel: self.channel,
            label: self.label.clone(),
            notes: clone_text(&self.notes),
            home: self.home,
            ranges: match &self.ranges {
                Some(r) => Some(clone_ranges(r)),
                None => None,
            },
        }
    }
}

pub open spec fn same_mappings(a: Seq<Mapping>, b: Seq<Mapping>) -> bool {
    &&& a.len() == b.len()
    &&& forall|i: int| 0 <= i < a.len() ==> (#[trigger] a[i]).same(b[i])
}

fn clone_mappings(v: &Vec<Mapping>) -> (c: Vec<Mapping>)
    ensures
        same_mappings(c@, v@),
{
    let mut c: Vec<Mapping> = Vec::new();
    let n = v.len();
    let mut i: usize = 0;
    while i < n
        invariant
            n == v.len(),
            i <= n,
            c.len() == i,
            forall|k: int| 0 <= k < i ==> (#[trigger] c[k]).same(v[k]),
        decreases n - i,
    {
        c.push(v[i].clone());
        i += 1;
    }
    c
}

/// A channel reference of a control macro: one 8-bit channel, or a coarse and a fine
/// channel that together carry 16 bits, coarse first.
#[derive(Clone, Copy, Debug)]
pub enum ChannelWithResolution {
    LoRes(u16),
    HiRes((u16, u16)),
}

/// A macro that drives one value into its channels.
#[derive(Debug)]
pub struct ValueMacro {
    pub label: String,
    pub channels: Vec<ChannelWithResolution>,
    pub current_value: u16,
    pub animation: Option<Animation>,
    pub midi_knob_index: Option<usize>,
}

impl ValueMacro {
    /// The same macro but for its animation.
    pub open spec fn same(self, other: ValueMacro) -> bool {
        &&& self.label@ == other.label@
        &&& self.channels@ == other.channels@
        &&& self.current_value == other.current_value
        &&& self.midi_knob_index == other.midi_knob_index
    }

    /// A macro with a 16-bit channel has a 16-bit value; any other has an 8-bit value.
    pub open spec fn hi_res(self) -> bool {
        exists|i: int| 0 <= i < self.channels.len() && (#[trigger] self.channels[i]) is HiRes
    }

    /// Whether the macro's value is 16 bits wide.
    pub fn is_hi_res(&self) -> (wide: bool)
        ensures
            wide == self.hi_res(),
    {
        let n = self.channels.len();
        let mut i: usize = 0;
        while i < n
            invariant
                n == self.channels.len(),
                i <= n,
                forall|k: int| 0 <= k < i ==> !((#[trigger] self.channels[k]) is HiRes),
            decreases n - i,
        {
            match self.channels[i] {
                ChannelWithResolution::HiRes(_) => {
                    return true;
                },
                ChannelWithResolution::LoRes(_) => {},
            }
            i += 1;
        }
        false
    }
}

/// The copy keeps the value and drops the animation in flight.
impl Clone for ValueMacro {
    fn clone(&self) -> (c: Self)
        ensures
            c.same(*self),
            c.animation is None,
    {
        let channels = self.channels.clone();
        assert(channels@ =~= self.channels@);
        ValueMacro {
            label: self.label.clone(),
            channels,
            current_value: self.current_value,
            animation: None,
            midi_knob_index: self.midi_knob_index,
        }
    }
}

/// 8-bit channels that carry red, green, blue and white; those of one component are
/// driven together.
#[derive(Debug)]
pub struct GroupedRGBWChannels {
    pub red: Vec<u16>,
    pub green: Vec<u16>,
    pub blue: Vec<u16>,
    pub white: Vec<u16>,
}

/// 8-bit channels that carry red, green, blue and lime.
#[derive(Debug)]
pub struct GroupedRGBLChannels {
    pub red: Vec<u16>,
    pub green: Vec<u16>,
    pub blue: Vec<u16>,
    pub lime: Vec<u16>,
}

/// 8-bit channels that carry cyan, magenta and yellow.
#[derive(Debug)]
pub struct GroupedCMYChannels {
    pub cyan: Vec<u16>,
    pub magenta: Vec<u16>,
    pub yellow: Vec<u16>,
}

/// Pairs of channels, coarse and fine, that carry red, green and blue in 16 bits each.
#[derive(Clone, Copy, Debug)]
pub struct HiResRGBChannels {
    pub red: (u16, u16),
    pub green: (u16, u16),
    pub blue: (u16, u16),
}

fn clone_channels(v: &Vec<u16>) -> (c: Vec<u16>)
    ensures
        c@ == v@,
{
    let c = v.clone();
    assert(c@ =~= v@);
    c
}

impl GroupedRGBWChannels {
    pub open spec fn same(self, other: Self) -> bool {
        &&& self.red@ == other.red@
        &&& self.green@ == other.green@
        &&& self.blue@ == other.blue@
        &&& self.white@ == other.white@
    }
}

impl Clone for GroupedRGBWChannels {
    fn clone(&self) -> (c: Self)
        ensures
            c.same(*self),
    {
        GroupedRGBWChannels {
            red: clone_channels(&self.red),
            green: clone_channels(&self.green),
            blue: clone_channels(&self.blue),
            white: clone_channels(&self.white),
        }
    }
}

impl GroupedRGBLChannels {
    pub open spec fn same(self, other: Self) -> bool {
        &&& self.red@ == other.red@
        &&& self.green@ == other.green@
        &&& self.blue@ == other.blue@
        &&& self.lime@ == other.lime@
    }
}

impl Clone for GroupedRGBLChannels {
    fn clone(&self) -> (c: Self)
        ensures
            c.same(*self),
    {
        GroupedRGBLChannels {
            red: clone_channels(&self.red),
            green: clone_channels(&self.green),
            blue: clone_channels(&self.blue),
            lime: clone_channels(&self.lime),
        }
    }
}

impl GroupedCMYChannels {
    pub open spec fn same(self, other: Self) -> bool {
        &&& self.cyan@ == other.cyan@
        &&& self.magenta@ == other.magenta@
        &&& self.yellow@ == other.yellow@
    }
}

impl Clone for GroupedCMYChannels {
    fn clone(&self) -> (c: Self)
        ensures
            c.same(*self),
    {
        GroupedCMYChannels {
            cyan: clone_channels(&self.cyan),
            magenta: clone_channels(&self.magenta),
            yellow: clone_channels(&self.yellow),
        }
    }
}

/// The channels of a colour macro, by the way the fixture mixes colour.
#[derive(Debug)]
pub enum ChannelList {
    AdditiveRGBW8(GroupedRGBWChannels),
    AdditiveRGBL8(GroupedRGBLChannels),
    AdditiveRGB16(HiResRGBChannels),
    Subtractive(GroupedCMYChannels),
}

impl ChannelList {
    pub open spec fn same(self, other: Self) -> bool {
        match (self, other) {
            (ChannelList::AdditiveRGBW8(a), ChannelList::AdditiveRGBW8(b)) => a.same(b),
            (ChannelList::AdditiveRGBL8(a), ChannelList::AdditiveRGBL8(b)) => a.same(b),
            (ChannelList::AdditiveRGB16(a), ChannelList::AdditiveRGB16(b)) => a == b,
            (ChannelList::Subtractive(a), ChannelList::Subtractive(b)) => a.same(b),
            _ => false,
        }
    }
}

impl Clone for ChannelList {
    fn clone(&self) -> (c: Self)
        ensures
            c.same(*self),
    {
        match self {
            ChannelList::AdditiveRGBW8(a) => ChannelList::AdditiveRGBW8(a.clone()),
            ChannelList::AdditiveRGBL8(a) => ChannelList::AdditiveRGBL8(a.clone()),
            ChannelList::AdditiveRGB16(a) => ChannelList::AdditiveRGB16(*a),
            ChannelList::Subtractive(a) => ChannelList::Subtractive(a.clone()),
        }
    }
}

/// A macro that drives one colour into its channels. An animation in flight comes
/// with the colour it started from and the colour it ends on; its value is the
/// progress between the two, as a fraction of 65535.
#[derive(Debug)]
pub struct ColourMacro {
    pub label: String,
    pub channels: ChannelList,
    pub current_value: Colour,
    pub animation: Option<(Animation, Colour, Colour)>,
}

impl ColourMacro {
    /// The same macro but for its animation.
    pub open spec fn same(self, other: ColourMacro) -> bool {
        &&& self.label@ == other.label@
        &&& self.channels.same(other.channels)
        &&& self.current_value == other.current_value
    }

    /// A colour macro as a fixture configuration declares it: light yellow, at rest.
    pub fn new(label: String, channels: ChannelList) -> (m: ColourMacro)
        ensures
            m.label == label,
            m.channels == channels,
            m.current_value == (Colour { r: 255, g: 255, b: 224, a: 255 }),
            m.animation is None,
    {
        ColourMacro { label, channels, current_value: default_rgb(), animation: None }
    }
}

/// The copy keeps the colour and drops the animation in flight.
impl Clone for ColourMacro {
    fn clone(&self) -> (c: Self)
        ensures
            c.same(*self),
            c.animation is None,
    {
        ColourMacro {
            label: self.label.clone(),
            channels: self.channels.clone(),
            current_value: self.current_value,
            animation: None,
        }
    }
}

/// A macro of a fixture: a control value or a colour.
#[derive(Debug)]
pub enum FixtureMacro {
    Control(ValueMacro),
    Colour(ColourMacro),
}

impl FixtureMacro {
    /// The macro's label.
    pub open spec fn label_view(self) -> Seq<char> {
        match self {
            FixtureMacro::Control(m) => m.label@,
            FixtureMacro::Colour(m) => m.label@,
        }
    }

    /// Whether an animation is in flight.
    pub open spec fn animating(self) -> bool {
        match self {
            FixtureMacro::Control(m) => m.animation is Some,
            FixtureMacro::Colour(m) => m.animation is Some,
        }
    }

    /// The same macro but for its animation.
    pub open spec fn same(self, other: FixtureMacro) -> bool {
        match (self, other) {
            (FixtureMacro::Control(a), FixtureMacro::Control(b)) => a.same(b),
            (FixtureMacro::Colour(a), FixtureMacro::Colour(b)) => a.same(b),
            _ => false,
        }
    }

    /// The macro's label.
    pub fn label(&self) -> (l: &String)
        ensures
            l@ == self.label_view(),
    {
        match self {
            FixtureMacro::Control(m) => &m.label,
            FixtureMacro::Colour(m) => &m.label,
        }
    }
}

/// The copy keeps the value and drops the animation in flight.
impl Clone for FixtureMacro {
    fn clone(&self) -> (c: Self)
        ensures
            c.same(*self),
            !c.animating(),
    {
        match self {
            FixtureMacro::Control(m) => FixtureMacro::Control(m.clone()),
            FixtureMacro::Colour(m) => FixtureMacro::Colour(m.clone()),
        }
    }
}

/// Two lists of macros hold the same macros in the same order, animations aside.
pub open spec fn same_macros(a: Seq<FixtureMacro>, b: Seq<FixtureMacro>) -> bool {
    &&& a.len() == b.len()
    &&& forall|i: int| 0 <= i < a.len() ==> (#[trigger] a[i]).same(b[i])
}

/// No macro of the list has an animation in flight.
pub open spec fn all_at_rest(a: Seq<FixtureMacro>) -> bool {
    forall|i: int| 0 <= i < a.len() ==> !(#[trigger] a[i]).animating()
}

fn clone_macros(v: &Vec<FixtureMacro>) -> (c: Vec<FixtureMacro>)
    ensures
        same_macros(c@, v@),
        all_at_rest(c@),
{
    let mut c: Vec<FixtureMacro> = Vec::new();
    let n = v.len();
    let mut i: usize = 0;
    while i < n
        invariant
            n == v.len(),
            i <= n,
            c.len() == i,
            forall|k: int| 0 <= k < i ==> (#[trigger] c[k]).same(v[k]),
            forall|k: int| 0 <= k < i ==> !(#[trigger] c[k]).animating(),
        decreases n - i,
    {
        c.push(v[i].clone());
        i += 1;
    }
    c
}

/// One way of running a fixture: the channels it then uses and the macros over them.
#[derive(Debug)]
pub struct ControlMode {
    pub name: String,
    pub mappings: Vec<Mapping>,
    pub macros: Vec<FixtureMacro>,
}

impl ControlMode {
    /// The same mode, animations aside.
    pub open spec fn same(self, other: ControlMode) -> bool {
        &&& self.name@ == other.name@
        &&& same_mappings(self.mappings@, other.mappings@)
        &&& same_macros(self.macros@, other.macros@)
    }

    /// A mode without a name, channels or macros.
    pub open spec fn is_empty(self) -> bool {
        &&& self.name@.len() == 0
        &&& self.mappings@.len() == 0
        &&& self.macros@.len() == 0
    }
}

impl Default for ControlMode {
    fn default() -> (m: Self)
        ensures
            m.is_empty(),
    {
        ControlMode { name: String::new(), mappings: Vec::new(), macros: Vec::new() }
    }
}

impl Clone for ControlMode {
    fn clone(&self) -> (c: Self)
        ensures
            c.same(*self),
            all_at_rest(c.macros@),
    {
        ControlMode {
            name: self.name.clone(),
            mappings: clone_mappings(&self.mappings),
            macros: clone_macros(&self.macros),
        }
    }
}

pub open spec fn same_modes(a: Seq<ControlMode>, b: Seq<ControlMode>) -> bool {
    &&& a.len() == b.len()
    &&& forall|i: int| 0 <= i < a.len() ==> (#[trigger] a[i]).same(b[i])
}

fn clone_modes(v: &Vec<ControlMode>) -> (c: Vec<ControlMode>)
    ensures
        same_modes(c@, v@),
{
    let mut c: Vec<ControlMode> = Vec::new();
    let n = v.len();
    let mut i: usize = 0;
    while i < n
        invariant
            n == v.len(),
            i <= n,
            c.len() == i,
            forall|k: int| 0 <= k < i ==> (#[trigger] c[k]).same(v[k]),
        decreases n - i,
    {
        c.push(v[i].clone());
        i += 1;
    }
    c
}

/// The configuration of one model of fixture. A project may hold many instances of
/// it; of the modes, an instance runs the one copied into `active_mode`.
#[derive(Debug)]
pub struct FixtureConfig {
    pub name: String,
    pub reference: String,
    pub modes: Vec<ControlMode>,
    pub active_mode: ControlMode,
}

impl FixtureConfig {
    /// The same configuration, animations aside.
    pub open spec fn same(self, other: FixtureConfig) -> bool {
        &&& self.name@ == other.name@
        &&& self.reference@ == other.reference@
        &&& same_modes(self.modes@, other.modes@)
        &&& self.active_mode.same(other.active_mode)
    }

    /// A configuration that names no fixture and has no modes.
    pub open spec fn is_empty(self) -> bool {
        &&& self.name@.len() == 0
        &&& self.reference@.len() == 0
        &&& self.modes@.len() == 0
        &&& self.active_mode.is_empty()
    }
}

impl Default for FixtureConfig {
    fn default() -> (c: Self)
        ensures
            c.is_empty(),
    {
        FixtureConfig {
            name: String::new(),
            reference: String::new(),
            modes: Vec::new(),
            active_mode: ControlMode::default(),
        }
    }
}

impl Clone for FixtureConfig {
    fn clone(&self) -> (c: Self)
        ensures
            c.same(*self),
            all_at_rest(c.active_mode.macros@),
    {
        FixtureConfig {
            name: self.name.clone(),
            reference: self.reference.clone(),
            modes: clone_modes(&self.modes),
            active_mode: self.active_mode.clone(),
        }
    }
}

/// A fixture as a project places it: its label, the configuration it is an instance
/// of, and the one-indexed channel of the universe at which its channels start.
#[derive(Debug)]
pub struct FixtureInstance {
    pub label: String,
    pub config_name: String,
    pub start_channel: u16,
    pub mode_index: usize,
    pub config: FixtureConfig,
}

impl FixtureInstance {
    /// The macros of the active mode.
    pub open spec fn macros(self) -> Seq<FixtureMacro> {
        self.config.active_mode.macros@
    }

    /// `post` is `pre` with `macros` as the macros of its active mode.
    pub open spec fn with_macros(pre: FixtureInstance, post: FixtureInstance, macros: Seq<FixtureMacro>) -> bool {
        &&& post.macros() == macros
        &&& post == (FixtureInstance {
            config: FixtureConfig {
                active_mode: ControlMode { macros: post.config.active_mode.macros, ..pre.config.active_mode },
                ..pre.config
            },
            ..pre
        })
    }

    /// The same instance, animations aside.
    pub open spec fn same(self, other: FixtureInstance) -> bool {
        &&& self.label@ == other.label@
        &&& self.config_name@ == other.config_name@
        &&& self.start_channel == other.start_channel
        &&& self.mode_index == other.mode_index
        &&& self.config.same(other.config)
    }

    /// A new instance of a configuration, labelled "My " and the configuration's
    /// name, not yet placed in the universe.
    pub fn from(config: &FixtureConfig) -> (f: FixtureInstance)
        ensures
            f.label@ == "My "@ + config.name@,
            f.config_name@ == config.name@,
            f.start_channel == 0,
            f.mode_index == 0,
            f.config.same(*config),
    {
        let mut label = String::from_str("My ");
        label.append(config.name.as_str());
        FixtureInstance {
            label,
            config_name: config.name.clone(),
            start_channel: 0,
            mode_index: 0,
            config: config.clone(),
        }
    }
}

/// The copy keeps the values of the macros and drops their animations.
impl Clone for FixtureInstance {
    fn clone(&self) -> (c: Self)
        ensures
            c.same(*self),
            all_at_rest(c.macros()),
    {
        FixtureInstance {
            label: self.label.clone(),
            config_name: self.config_name.clone(),
            start_channel: self.start_channel,
            mode_index: self.mode_index,
            config: self.config.clone(),
        }
    }
}

/// The index in the universe's buffer of a channel of a fixture. Channels are
/// numbered from one within the fixture, and the fixture's start channel is
/// numbered from one within the universe; a reference that falls outside the
/// universe has no index.
pub open spec fn channel_index(channel: u16, start_channel: u16) -> Option<int> {
    if channel >= 1 && start_channel >= 1 && channel - 1 + start_channel - 1 < 512 {
        Some(channel - 1 + start_channel - 1)
    } else {
        None
    }
}

/// The buffer index of a channel of a fixture, if it lies in the universe.
pub fn target_channel(channel: u16, start_channel: u16) -> (index: Option<usize>)
    ensures
        index is Some <==> channel_index(channel, start_channel) is Some,
        index matches Some(i) ==> channel_index(channel, start_channel) == Some(i as int),
{
    if channel >= 1 && start_channel >= 1 {
        let i: u32 = (channel as u32 - 1) + (start_channel as u32 - 1);
        if i < 512 {
            return Some(i as usize);
        }
    }
    None
}

} // verus!
