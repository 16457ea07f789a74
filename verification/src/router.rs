//! What remote-control events, scene recalls and the passing of time do to the
//! macros of a list of fixtures.

use crate::animation::Animation;
use crate::colour::{animate_colour, lerp_colour, Colour};
use crate::fixture::{ColourMacro, FixtureInstance, FixtureMacro, ValueMacro};
use crate::scene::{
    macro_after_value, macros_after_scene, recall_fixture, scene_entries, set_macro, SceneValue,
};
use crate::tether_interface::RemoteMacroMessage;
use crate::text::{eq_ignore_ascii_case, filter_admits, fixtures_list_contains, labels_match};
use indexmap::IndexMap;
use vstd::prelude::*;

verus! {

/// Each fixture of `post` is the fixture of `pre` at its place with the macros that
/// `macros_of` gives for it; nothing else has changed.
pub open spec fn fixtures_changed(
    pre: Seq<FixtureInstance>,
    post: Seq<FixtureInstance>,
    macros_of: spec_fn(int, FixtureInstance) -> Seq<FixtureMacro>,
) -> bool {
    &&& post.len() == pre.len()
    &&& forall|i: int|
        0 <= i < pre.len() ==> FixtureInstance::with_macros(pre[i], #[trigger] post[i], macros_of(i, pre[i]))
}

/// Recalls a scene for every fixture: each takes the values of the scene's entries
/// that are meant for it.
pub fn recall_scene(
    fixtures: &mut Vec<FixtureInstance>,
    scene_state: &IndexMap<String, IndexMap<String, SceneValue>>,
    filter: &Option<Vec<String>>,
    ms: Option<u64>,
    now: u64,
)
    ensures
        fixtures_changed(
            old(fixtures)@,
            final(fixtures)@,
            |i: int, f: FixtureInstance|
                macros_after_scene(f.macros(), f.label@, scene_entries(*scene_state), *filter, ms, now),
        ),
{
    let n = fixtures.len();
    let mut i: usize = 0;
    while i < n
        invariant
            n == fixtures.len(),
            n == old(fixtures).len(),
            i <= n,
            forall|k: int|
                0 <= k < i ==> FixtureInstance::with_macros(
                    old(fixtures)[k],
                    #[trigger] fixtures[k],
                    macros_after_scene(
                        old(fixtures)[k].macros(),
                        old(fixtures)[k].label@,
                        scene_entries(*scene_state),
                        *filter,
                        ms,
                        now,
                    ),
                ),
            forall|k: int| i <= k < n ==> fixtures[k] == old(fixtures)[k],
        decreases n - i,
    {
        recall_fixture(&mut fixtures[i], scene_state, filter, ms, now);
        i += 1;
    }
}

/// `i` is the place of the first macro whose label matches `label` up to ASCII case.
pub open spec fn is_first_named(macros: Seq<FixtureMacro>, label: Seq<char>, i: int) -> bool {
    &&& 0 <= i < macros.len()
    &&& labels_match(macros[i].label_view(), label)
    &&& forall|k: int| 0 <= k < i ==> !labels_match((#[trigger] macros[k]).label_view(), label)
}

/// The place of the first macro whose label matches `label`, if any does.
pub open spec fn first_named(macros: Seq<FixtureMacro>, label: Seq<char>) -> Option<int> {
    if exists|i: int| is_first_named(macros, label, i) {
        Some(choose|i: int| is_first_named(macros, label, i))
    } else {
        None
    }
}

/// Finds the first macro whose label matches `label` up to ASCII case.
pub fn find_macro(macros: &Vec<FixtureMacro>, label: &str) -> (found: Option<usize>)
    ensures
        found is Some <==> first_named(macros@, label@) is Some,
        found matches Some(i) ==> first_named(macros@, label@) == Some(i as int),
{
    let n = macros.len();
    let mut i: usize = 0;
    while i < n
        invariant
            n == macros.len(),
            i <= n,
            forall|k: int| 0 <= k < i ==> !labels_match((#[trigger] macros[k]).label_view(), label@),
        decreases n - i,
    {
        if eq_ignore_ascii_case(macros[i].label().as_str(), label) {
            proof {
                assert(is_first_named(macros@, label@, i as int));
                let c = choose|c: int| is_first_named(macros@, label@, c);
                assert(is_first_named(macros@, label@, c));
                if c < i {
                    assert(!labels_match(macros@[c].label_view(), label@));
                }
                if i < c {
                    assert(!labels_match(macros@[i as int].label_view(), label@));
                }
            }
            return Some(i);
        }
        i += 1;
    }
    proof {
        if exists|c: int| is_first_named(macros@, label@, c) {
            let c = choose|c: int| is_first_named(macros@, label@, c);
            assert(!labels_match(macros@[c].label_view(), label@));
        }
    }
    None
}

/// The macros of a fixture after a message that sets a macro: if the message's
/// filter admits the fixture, the first macro that the message names is sent the
/// value; all else stays.
pub open spec fn macros_after_message(
    macros: Seq<FixtureMacro>,
    fixture_label: Seq<char>,
    msg: RemoteMacroMessage,
    now: u64,
) -> Seq<FixtureMacro> {
    if filter_admits(msg.fixture_labels, fixture_label) {
        match first_named(macros, msg.macro_label@) {
            Some(i) => macros.update(i, macro_after_value(macros[i], msg.value.as_scene_value(), msg.ms, now)),
            None => macros,
        }
    } else {
        macros
    }
}

/// A value is of the kind that the macro takes: a control value for a control
/// macro, a colour for a colour macro.
pub open spec fn value_fits(m: FixtureMacro, value: SceneValue) -> bool {
    (m is Control && value is ControlValue) || (m is Colour && value is ColourValue)
}

/// Whether a value is of the kind that a macro takes.
pub fn fits(m: &FixtureMacro, value: &SceneValue) -> (ok: bool)
    ensures
        ok == value_fits(*m, *value),
{
    match m {
        FixtureMacro::Control(_) => match value {
            SceneValue::ControlValue(_) => true,
            SceneValue::ColourValue(_) => false,
        },
        FixtureMacro::Colour(_) => match value {
            SceneValue::ControlValue(_) => false,
            SceneValue::ColourValue(_) => true,
        },
    }
}

/// A message that sets a macro reaches a fixture: its filter admits the fixture,
/// the fixture has a macro that it names, and its value is of the kind that the
/// first such macro takes.
pub open spec fn message_hits(f: FixtureInstance, msg: RemoteMacroMessage) -> bool {
    &&& filter_admits(msg.fixture_labels, f.label@)
    &&& first_named(f.macros(), msg.macro_label@) matches Some(k) && value_fits(
        f.macros()[k],
        msg.value.as_scene_value(),
    )
}

/// A message that sets a macro reaches one of the fixtures.
pub open spec fn message_hits_any(fixtures: Seq<FixtureInstance>, msg: RemoteMacroMessage) -> bool {
    exists|i: int| 0 <= i < fixtures.len() && message_hits(#[trigger] fixtures[i], msg)
}

/// Handles a message that sets a macro, for one fixture, and says whether the
/// message reached it.
pub fn set_fixture_macro(fixture: &mut FixtureInstance, msg: &RemoteMacroMessage, now: u64) -> (hit: bool)
    ensures
        FixtureInstance::with_macros(
            *old(fixture),
            *final(fixture),
            macros_after_message(old(fixture).macros(), old(fixture).label@, *msg, now),
        ),
        hit == message_hits(*old(fixture), *msg),
{
    if fixtures_list_contains(&msg.fixture_labels, fixture.label.as_str()) {
        match find_macro(&fixture.config.active_mode.macros, msg.macro_label.as_str()) {
            Some(i) => {
                let value = msg.value.to_scene_value();
                let hit = fits(&fixture.config.active_mode.macros[i], &value);
                set_macro(&mut fixture.config.active_mode.macros[i], value, msg.ms, now);
                assert(fixture.macros() =~= macros_after_message(old(fixture).macros(), old(fixture).label@, *msg, now));
                hit
            },
            None => false,
        }
    } else {
        false
    }
}

/// Handles a message that sets a macro, for every fixture, and says whether the
/// message reached any.
pub fn set_macros(fixtures: &mut Vec<FixtureInstance>, msg: &RemoteMacroMessage, now: u64) -> (hit: bool)
    ensures
        fixtures_changed(
            old(fixtures)@,
            final(fixtures)@,
            |i: int, f: FixtureInstance| macros_after_message(f.macros(), f.label@, *msg, now),
        ),
        hit == message_hits_any(old(fixtures)@, *msg),
{
    let n = fixtures.len();
    let mut hit = false;
    let mut i: usize = 0;
    while i < n
        invariant
            n == fixtures.len(),
            n == old(fixtures).len(),
            i <= n,
            forall|k: int|
                0 <= k < i ==> FixtureInstance::with_macros(
                    old(fixtures)[k],
                    #[trigger] fixtures[k],
                    macros_after_message(old(fixtures)[k].macros(), old(fixtures)[k].label@, *msg, now),
                ),
            forall|k: int| i <= k < n ==> fixtures[k] == old(fixtures)[k],
            hit == exists|k: int| 0 <= k < i && message_hits(#[trigger] old(fixtures)@[k], *msg),
        decreases n - i,
    {
        let here = set_fixture_macro(&mut fixtures[i], msg, now);
        proof {
            if here {
                assert(0 <= i < i + 1 && message_hits(old(fixtures)@[i as int], *msg));
            }
            if exists|k: int| 0 <= k < i + 1 && message_hits(#[trigger] old(fixtures)@[k], *msg) {
                let k = choose|k: int| 0 <= k < i + 1 && message_hits(#[trigger] old(fixtures)@[k], *msg);
                if k < i {
                    assert(0 <= k < i && message_hits(old(fixtures)@[k], *msg));
                }
            }
        }
        if here {
            hit = true;
        }
        i += 1;
    }
    hit
}

/// A controller change carries a 7-bit value, and counts only from the first
/// controller that the project assigns to macros.
pub open spec fn controller_counts(controller: u8, controller_start: u8, value: u8) -> bool {
    controller >= controller_start && value <= 127
}

/// A macro after a controller change with a 7-bit value. A control macro takes
/// twice the value, and any animation in flight is dropped; a colour macro takes
/// twice the value as its alpha and keeps red, green and blue.
pub open spec fn macro_after_controller(m: FixtureMacro, value: u8) -> FixtureMacro {
    match m {
        FixtureMacro::Control(c) => FixtureMacro::Control(
            ValueMacro { current_value: (2 * value) as u16, animation: None, ..c },
        ),
        FixtureMacro::Colour(c) => FixtureMacro::Colour(
            ColourMacro { current_value: Colour { a: (2 * value) as u8, ..c.current_value }, ..c },
        ),
    }
}

/// The macros of the selected fixture after a controller change: the macro at the
/// controller's place, counted from the first controller, changes if there is one.
pub open spec fn macros_after_controller(
    macros: Seq<FixtureMacro>,
    controller: u8,
    controller_start: u8,
    value: u8,
) -> Seq<FixtureMacro> {
    if controller_counts(controller, controller_start, value) && controller - controller_start < macros.len() {
        macros.update(
            controller - controller_start,
            macro_after_controller(macros[controller - controller_start], value),
        )
    } else {
        macros
    }
}

/// Applies a controller change with a 7-bit value to one macro.
pub fn controller_sets_macro(m: &mut FixtureMacro, value: u8)
    requires
        value <= 127,
    ensures
        *final(m) == macro_after_controller(*old(m), value),
{
    match m {
        FixtureMacro::Control(c) => {
            c.animation = None;
            c.current_value = 2 * (value as u16);
        },
        FixtureMacro::Colour(c) => {
            c.current_value = c.current_value.with_alpha(2 * value);
        },
    }
}

/// A controller change reaches a macro: it counts, there is a fixture at place
/// `group`, and that fixture has a macro at the controller's place.
pub open spec fn controller_hits(
    fixtures: Seq<FixtureInstance>,
    group: usize,
    controller: u8,
    controller_start: u8,
    value: u8,
) -> bool {
    &&& controller_counts(controller, controller_start, value)
    &&& group < fixtures.len()
    &&& controller - controller_start < fixtures[group as int].macros().len()
}

/// Handles a controller change, and says whether it reached a macro. Only the
/// fixture at place `group` is touched.
pub fn controller_change(
    fixtures: &mut Vec<FixtureInstance>,
    group: usize,
    controller: u8,
    controller_start: u8,
    value: u8,
) -> (hit: bool)
    ensures
        fixtures_changed(
            old(fixtures)@,
            final(fixtures)@,
            |i: int, f: FixtureInstance|
                if i == group {
                    macros_after_controller(f.macros(), controller, controller_start, value)
                } else {
                    f.macros()
                },
        ),
        hit == controller_hits(old(fixtures)@, group, controller, controller_start, value),
{
    if controller < controller_start || value > 127 || group >= fixtures.len() {
        return false;
    }
    let target = (controller - controller_start) as usize;
    let fixture = &mut fixtures[group];
    if target < fixture.config.active_mode.macros.len() {
        controller_sets_macro(&mut fixture.config.active_mode.macros[target], value);
        assert(fixture.macros() =~= macros_after_controller(
            old(fixtures)[group as int].macros(),
            controller,
            controller_start,
            value,
        ));
        true
    } else {
        false
    }
}

/// The value that a knob at `position` of 65535 sets: 255 times the position,
/// rounded to the nearest.
pub open spec fn knob_value(position: u16) -> u16 {
    ((255 * position + 32767) / 65535) as u16
}

/// A macro after a knob has been turned: a control macro that the knob is assigned
/// to takes the knob's value; any other macro stays.
pub open spec fn macro_after_knob(m: FixtureMacro, index: u8, position: u16) -> FixtureMacro {
    match m {
        FixtureMacro::Control(c) => if c.midi_knob_index == Some(index as usize) {
            FixtureMacro::Control(ValueMacro { current_value: knob_value(position), ..c })
        } else {
            m
        },
        FixtureMacro::Colour(_) => m,
    }
}

/// The macros of a fixture after a knob has been turned.
pub open spec fn macros_after_knob(macros: Seq<FixtureMacro>, index: u8, position: u16) -> Seq<FixtureMacro> {
    Seq::new(macros.len(), |k: int| macro_after_knob(macros[k], index, position))
}

/// A macro is a control macro that the knob is assigned to.
pub open spec fn knob_drives(m: FixtureMacro, index: u8) -> bool {
    m matches FixtureMacro::Control(c) && c.midi_knob_index == Some(index as usize)
}

/// The knob is assigned to a macro of the fixture.
pub open spec fn knob_hits(f: FixtureInstance, index: u8) -> bool {
    exists|k: int| 0 <= k < f.macros().len() && knob_drives(#[trigger] f.macros()[k], index)
}

/// The knob is assigned to a macro of one of the fixtures.
pub open spec fn knob_hits_any(fixtures: Seq<FixtureInstance>, index: u8) -> bool {
    exists|i: int| 0 <= i < fixtures.len() && knob_hits(#[trigger] fixtures[i], index)
}

/// Applies the turn of a knob to one macro, and says whether the knob is assigned
/// to it.
pub fn knob_sets_macro(m: &mut FixtureMacro, index: u8, position: u16) -> (hit: bool)
    ensures
        *final(m) == macro_after_knob(*old(m), index, position),
        hit == knob_drives(*old(m), index),
{
    match m {
        FixtureMacro::Control(c) => {
            let assigned = match c.midi_knob_index {
                Some(k) => k == index as usize,
                None => false,
            };
            if assigned {
                let scaled: u32 = (255 * (position as u32) + 32767) / 65535;
                c.current_value = scaled as u16;
            }
            assigned
        },
        FixtureMacro::Colour(_) => false,
    }
}

/// Applies the turn of a knob to the macros of one fixture, and says whether the
/// knob is assigned to any.
pub fn knob_sets_fixture(fixture: &mut FixtureInstance, index: u8, position: u16) -> (hit: bool)
    ensures
        FixtureInstance::with_macros(
            *old(fixture),
            *final(fixture),
            macros_after_knob(old(fixture).macros(), index, position),
        ),
        hit == knob_hits(*old(fixture), index),
{
    let n = fixture.config.active_mode.macros.len();
    let mut hit = false;
    let mut k: usize = 0;
    while k < n
        invariant
            k <= n,
            FixtureInstance::with_macros(*old(fixture), *fixture, fixture.macros()),
            fixture.macros().len() == n,
            old(fixture).macros().len() == n,
            forall|j: int| 0 <= j < k ==> fixture.macros()[j] == macro_after_knob(old(fixture).macros()[j], index, position),
            forall|j: int| k <= j < n ==> fixture.macros()[j] == old(fixture).macros()[j],
            hit == exists|j: int| 0 <= j < k && knob_drives(#[trigger] old(fixture).macros()[j], index),
        decreases n - k,
    {
        let here = knob_sets_macro(&mut fixture.config.active_mode.macros[k], index, position);
        proof {
            if here {
                assert(0 <= k < k + 1 && knob_drives(old(fixture).macros()[k as int], index));
            }
            if exists|j: int| 0 <= j < k + 1 && knob_drives(#[trigger] old(fixture).macros()[j], index) {
                let j = choose|j: int| 0 <= j < k + 1 && knob_drives(#[trigger] old(fixture).macros()[j], index);
                if j < k {
                    assert(0 <= j < k && knob_drives(old(fixture).macros()[j], index));
                }
            }
        }
        if here {
            hit = true;
        }
        k += 1;
    }
    assert(fixture.macros() =~= macros_after_knob(old(fixture).macros(), index, position));
    hit
}

/// Handles the turn of a knob, for every fixture, and says whether the knob is
/// assigned to any macro.
pub fn knob_turned(fixtures: &mut Vec<FixtureInstance>, index: u8, position: u16) -> (hit: bool)
    ensures
        fixtures_changed(
            old(fixtures)@,
            final(fixtures)@,
            |i: int, f: FixtureInstance| macros_after_knob(f.macros(), index, position),
        ),
        hit == knob_hits_any(old(fixtures)@, index),
{
    let n = fixtures.len();
    let mut hit = false;
    let mut i: usize = 0;
    while i < n
        invariant
            n == fixtures.len(),
            n == old(fixtures).len(),
            i <= n,
            forall|k: int|
                0 <= k < i ==> FixtureInstance::with_macros(
                    old(fixtures)[k],
                    #[trigger] fixtures[k],
                    macros_after_knob(old(fixtures)[k].macros(), index, position),
                ),
            forall|k: int| i <= k < n ==> fixtures[k] == old(fixtures)[k],
            hit == exists|k: int| 0 <= k < i && knob_hits(#[trigger] old(fixtures)@[k], index),
        decreases n - i,
    {
        let here = knob_sets_fixture(&mut fixtures[i], index, position);
        proof {
            if here {
                assert(0 <= i < i + 1 && knob_hits(old(fixtures)@[i as int], index));
            }
            if exists|k: int| 0 <= k < i + 1 && knob_hits(#[trigger] old(fixtures)@[k], index) {
                let k = choose|k: int| 0 <= k < i + 1 && knob_hits(#[trigger] old(fixtures)@[k], index);
                if k < i {
                    assert(0 <= k < i && knob_hits(old(fixtures)@[k], index));
                }
            }
        }
        if here {
            hit = true;
        }
        i += 1;
    }
    hit
}

/// A control macro after its animation, sampled as `b`, has given its value: the
/// macro holds the sample, and a finished animation is gone.
pub open spec fn control_sampled(c: ValueMacro, b: Animation) -> FixtureMacro {
    FixtureMacro::Control(
        ValueMacro { current_value: b.current_value(), animation: if b.finished() { None } else { Some(b) }, ..c },
    )
}

/// A colour macro after its animation, sampled as `b`, has given its progress: the
/// macro holds the colour that far between the two ends, and a finished animation
/// is gone.
pub open spec fn colour_sampled(c: ColourMacro, b: Animation, from: Colour, to: Colour) -> FixtureMacro {
    FixtureMacro::Colour(
        ColourMacro {
            current_value: lerp_colour(from, to, b.current_value()),
            animation: if b.finished() { None } else { Some((b, from, to)) },
            ..c
        },
    )
}

/// What a tick at `now` does to a macro: without an animation nothing; with one,
/// the animation is sampled and the macro takes the sample.
pub open spec fn macro_animated(pre: FixtureMacro, post: FixtureMacro, now: u64) -> bool {
    match pre {
        FixtureMacro::Control(c) => match c.animation {
            Some(a) => exists|b: Animation| #[trigger] Animation::sample_step(a, now, b) && post == control_sampled(c, b),
            None => post == pre,
        },
        FixtureMacro::Colour(c) => match c.animation {
            Some((a, from, to)) => exists|b: Animation| #[trigger]
                Animation::sample_step(a, now, b) && post == colour_sampled(c, b, from, to),
            None => post == pre,
        },
    }
}

/// What a tick at `now` does to the macros of a list of fixtures.
pub open spec fn fixtures_animated(pre: Seq<FixtureInstance>, post: Seq<FixtureInstance>, now: u64) -> bool {
    &&& post.len() == pre.len()
    &&& forall|i: int|
        0 <= i < pre.len() ==> {
            &&& FixtureInstance::with_macros(pre[i], #[trigger] post[i], post[i].macros())
            &&& post[i].macros().len() == pre[i].macros().len()
            &&& forall|k: int|
                0 <= k < pre[i].macros().len() ==> macro_animated(pre[i].macros()[k], #[trigger] post[i].macros()[k], now)
        }
}

/// Advances the animation of one macro to `now`.
pub fn animate_macro(m: &mut FixtureMacro, now: u64)
    ensures
        macro_animated(*old(m), *final(m), now),
{
    match m {
        FixtureMacro::Control(c) => {
            match c.animation.take() {
                Some(a) => {
                    let mut b = a;
                    let (value, done) = b.get_value_and_done(now);
                    c.current_value = value;
                    if !done {
                        c.animation = Some(b);
                    }
                    assert(Animation::sample_step(a, now, b));
                },
                None => {},
            }
        },
        FixtureMacro::Colour(c) => {
            match c.animation.take() {
                Some((a, from, to)) => {
                    let mut b = a;
                    let (progress, done) = b.get_value_and_done(now);
                    c.current_value = animate_colour(&from, &to, progress);
                    if !done {
                        c.animation = Some((b, from, to));
                    }
                    assert(Animation::sample_step(a, now, b));
                },
                None => {},
            }
        },
    }
}

/// Advances the animations of one fixture to `now`.
pub fn animate_fixture(fixture: &mut FixtureInstance, now: u64)
    ensures
        FixtureInstance::with_macros(*old(fixture), *final(fixture), final(fixture).macros()),
        final(fixture).macros().len() == old(fixture).macros().len(),
        forall|k: int|
            0 <= k < old(fixture).macros().len() ==> macro_animated(
                old(fixture).macros()[k],
                #[trigger] final(fixture).macros()[k],
                now,
            ),
{
    let n = fixture.config.active_mode.macros.len();
    let mut k: usize = 0;
    while k < n
        invariant
            k <= n,
            FixtureInstance::with_macros(*old(fixture), *fixture, fixture.macros()),
            fixture.macros().len() == n,
            old(fixture).macros().len() == n,
            forall|j: int| 0 <= j < k ==> macro_animated(old(fixture).macros()[j], #[trigger] fixture.macros()[j], now),
            forall|j: int| k <= j < n ==> fixture.macros()[j] == old(fixture).macros()[j],
        decreases n - k,
    {
        animate_macro(&mut fixture.config.active_mode.macros[k], now);
        k += 1;
    }
}

/// Advances every animation of every fixture to `now`.
pub fn animate_fixtures(fixtures: &mut Vec<FixtureInstance>, now: u64)
    ensures
        fixtures_animated(old(fixtures)@, final(fixtures)@, now),
{
    let n = fixtures.len();
    let mut i: usize = 0;
    while i < n
        invariant
            n == fixtures.len(),
            n == old(fixtures).len(),
            i <= n,
            forall|j: int|
                0 <= j < i ==> {
                    &&& FixtureInstance::with_macros(old(fixtures)[j], #[trigger] fixtures[j], fixtures[j].macros())
                    &&& fixtures[j].macros().len() == old(fixtures)[j].macros().len()
                    &&& forall|k: int|
                        0 <= k < old(fixtures)[j].macros().len() ==> macro_animated(
                            old(fixtures)[j].macros()[k],
                            #[trigger] fixtures[j].macros()[k],
                            now,
                        )
                },
            forall|j: int| i <= j < n ==> fixtures[j] == old(fixtures)[j],
        decreases n - i,
    {
        animate_fixture(&mut fixtures[i], now);
        i += 1;
    }
}

} // verus!
