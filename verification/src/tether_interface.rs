//! The remote-control messages that the engine takes, as decoded values.

use crate::colour::Colour;
use crate::scene::SceneValue;
use vstd::prelude::*;

verus! {

/// A note of a MIDI-style controller.
#[derive(Clone, Copy, Debug)]
pub struct TetherNotePayload {
    pub channel: u8,
    pub note: u8,
    pub velocity: u8,
}

/// A controller change of a MIDI-style controller: a 7-bit value for one controller.
#[derive(Clone, Copy, Debug)]
pub struct TetherControlChangePayload {
    pub channel: u8,
    pub controller: u8,
    pub value: u8,
}

/// The position of a knob, as a fraction of 65535 of its travel.
#[derive(Clone, Copy, Debug)]
pub struct TetherKnobPayload {
    pub index: u8,
    pub position: u16,
}

/// The value that a message sets a macro to.
#[derive(Clone, Copy, Debug)]
pub enum RemoteMacroValue {
    ControlValue(u16),
    ColourValue(Colour),
}

impl RemoteMacroValue {
    /// The same value as a scene would store it.
    pub open spec fn as_scene_value(self) -> SceneValue {
        match self {
            RemoteMacroValue::ControlValue(x) => SceneValue::ControlValue(x),
            RemoteMacroValue::ColourValue(c) => SceneValue::ColourValue(c),
        }
    }

    /// The same value as a scene would store it.
    pub fn to_scene_value(&self) -> (v: SceneValue)
        ensures
            v == self.as_scene_value(),
    {
        match self {
            RemoteMacroValue::ControlValue(x) => SceneValue::ControlValue(*x),
            RemoteMacroValue::ColourValue(c) => SceneValue::ColourValue(*c),
        }
    }
}

/// Sets one macro, named by its label, of the fixtures that a filter admits (of
/// all fixtures without a filter): at once, or over `ms` milliseconds.
#[derive(Debug)]
pub struct RemoteMacroMessage {
    pub fixture_labels: Option<Vec<String>>,
    pub macro_label: String,
    pub value: RemoteMacroValue,
    pub ms: Option<u64>,
}

/// A message of a MIDI-style controller.
#[derive(Clone, Copy, Debug)]
pub enum TetherMidiMessage {
    NoteOn(TetherNotePayload),
    ControlChange(TetherControlChangePayload),
    Knob(TetherKnobPayload),
}

/// Recalls a scene, named by its label: at once, or over `ms` milliseconds; for
/// the fixtures that a filter holds, or for all without a filter.
#[derive(Debug)]
pub struct RemoteSceneMessage {
    pub scene_label: String,
    pub ms: Option<u64>,
    pub fixture_labels: Option<Vec<String>>,
}

/// Any message that the engine takes.
#[derive(Debug)]
pub enum RemoteControlMessage {
    Midi(TetherMidiMessage),
    MacroAnimation(RemoteMacroMessage),
    SceneAnimation(RemoteSceneMessage),
}

} // verus!
