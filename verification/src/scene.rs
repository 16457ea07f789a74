//! Scenes: named snapshots of macro values, kept in insertion order, and what
//! capturing and recalling one does to the macros of a fixture.

use crate::animation::Animation;
use crate::colour::Colour;
use crate::fixture::{ColourMacro, FixtureInstance, FixtureMacro, ValueMacro};
use crate::sorting::Labelled;
use crate::text::{eq_ignore_ascii_case, label_le, labels_match, list_contains, list_has};
use indexmap::IndexMap;
use vstd::prelude::*;

verus! {

/// The insertion-ordered hash map in which scenes keep their entries.
#[verifier::external_type_specification]
#[verifier::external_body]
#[verifier::reject_recursive_types(K)]
#[verifier::reject_recursive_types(V)]
#[verifier::reject_recursive_types(S)]
pub struct ExIndexMap<K, V, S>(IndexMap<K, V, S>);

/// A value that a scene stores for one macro.
#[derive(Clone, Copy, Debug, PartialEq, Eq, Structural)]
pub enum SceneValue {
    ControlValue(u16),
    ColourValue(Colour),
}

/// What a map from labels holds, as a list in the map's order, has an entry for `key`.
pub open spec fn has_key<V>(entries: Seq<(Seq<char>, V)>, key: Seq<char>) -> bool {
    exists|i: int| 0 <= i < entries.len() && (#[trigger] entries[i]).0 == key
}

/// The place of the entry for `key`.
pub open spec fn index_of<V>(entries: Seq<(Seq<char>, V)>, key: Seq<char>) -> int {
    choose|i: int| 0 <= i < entries.len() && (#[trigger] entries[i]).0 == key
}

/// No two entries have the same key.
pub open spec fn keys_unique<V>(entries: Seq<(Seq<char>, V)>) -> bool {
    forall|i: int, j: int|
        0 <= i < entries.len() && 0 <= j < entries.len() && i != j ==> (#[trigger] entries[i]).0 != (#[trigger] entries[j]).0
}

/// The value stored for `key`, if there is one.
pub open spec fn lookup<V>(entries: Seq<(Seq<char>, V)>, key: Seq<char>) -> Option<V> {
    if has_key(entries, key) {
        Some(entries[index_of(entries, key)].1)
    } else {
        None
    }
}

/// The entries after an insertion: an entry with that key keeps its place and takes
/// the new value; otherwise the new entry comes last.
pub open spec fn inserted<V>(entries: Seq<(Seq<char>, V)>, key: Seq<char>, value: V) -> Seq<(Seq<char>, V)> {
    if has_key(entries, key) {
        entries.update(index_of(entries, key), (key, value))
    } else {
        entries.push((key, value))
    }
}

/// The macro values of one fixture in a scene, in the map's order: label and value.
pub uninterp spec fn state_entries(m: IndexMap<String, SceneValue>) -> Seq<(Seq<char>, SceneValue)>;

/// The fixtures of a scene, in the map's order: label and macro values.
pub uninterp spec fn scene_entries(m: IndexMap<String, IndexMap<String, SceneValue>>) -> Seq<
    (Seq<char>, Seq<(Seq<char>, SceneValue)>),
>;

/// Calls `IndexMap::new`: the new map is empty.
#[verifier::external_body]
pub(crate) fn state_new() -> (m: IndexMap<String, SceneValue>)
    ensures
        state_entries(m) == Seq::<(Seq<char>, SceneValue)>::empty(),
{
    IndexMap::new()
}

/// Calls `IndexMap::insert`. A key that the map holds keeps its place and takes the
/// new value; a new key comes last.
#[verifier::external_body]
pub(crate) fn state_insert(m: &mut IndexMap<String, SceneValue>, key: String, value: SceneValue)
    ensures
        state_entries(*final(m)) == inserted(state_entries(*old(m)), key@, value),
{
    m.insert(key, value);
}

/// Calls `IndexMap::get`: the value stored for the key, if the map holds the key.
#[verifier::external_body]
pub(crate) fn state_get(m: &IndexMap<String, SceneValue>, key: &str) -> (value: Option<SceneValue>)
    ensures
        value == lookup(state_entries(*m), key@),
{
    m.get(key).copied()
}

/// Calls `IndexMap::new`: the new map is empty.
#[verifier::external_body]
pub(crate) fn scene_new() -> (m: IndexMap<String, IndexMap<String, SceneValue>>)
    ensures
        scene_entries(m) == Seq::<(Seq<char>, Seq<(Seq<char>, SceneValue)>)>::empty(),
{
    IndexMap::new()
}

/// Calls `IndexMap::insert`. A key that the map holds keeps its place and takes the
/// new value; a new key comes last.
#[verifier::external_body]
pub(crate) fn scene_insert(
    m: &mut IndexMap<String, IndexMap<String, SceneValue>>,
    key: String,
    state: IndexMap<String, SceneValue>,
)
    ensures
        scene_entries(*final(m)) == inserted(scene_entries(*old(m)), key@, state_entries(state)),
{
    m.insert(key, state);
}

/// Calls `IndexMap::len`: the number of entries.
#[verifier::external_body]
pub(crate) fn scene_len(m: &IndexMap<String, IndexMap<String, SceneValue>>) -> (n: usize)
    ensures
        n == scene_entries(*m).len(),
{
    m.len()
}

/// Calls `IndexMap::get_index` with an index below the map's length: the key and
/// the value at that place.
#[verifier::external_body]
pub(crate) fn scene_get_index(m: &IndexMap<String, IndexMap<String, SceneValue>>, index: usize) -> (entry: (
    &String,
    &IndexMap<String, SceneValue>,
))
    requires
        index < scene_entries(*m).len(),
    ensures
        entry.0@ == scene_entries(*m)[index as int].0,
        state_entries(*entry.1) == scene_entries(*m)[index as int].1,
{
    m.get_index(index).unwrap()
}

/// The keys of the entries are in alphabetical order.
pub open spec fn keys_sorted<V>(entries: Seq<(Seq<char>, V)>) -> bool {
    forall|i: int| 0 <= i < entries.len() - 1 ==> label_le((#[trigger] entries[i]).0, entries[i + 1].0)
}

/// Calls `IndexMap::sort_keys`, which puts the entries in the order of their keys,
/// as `String` orders them: the map holds the same entries, keys ascending.
#[verifier::external_body]
pub(crate) fn state_sort_keys(m: &mut IndexMap<String, SceneValue>)
    ensures
        keys_sorted(state_entries(*final(m))),
        state_entries(*final(m)).to_multiset() == state_entries(*old(m)).to_multiset(),
{
    m.sort_keys();
}

/// Calls `IndexMap::sort_keys`, which puts the entries in the order of their keys,
/// as `String` orders them: the map holds the same entries, keys ascending.
#[verifier::external_body]
pub(crate) fn scene_sort_keys(m: &mut IndexMap<String, IndexMap<String, SceneValue>>)
    ensures
        keys_sorted(scene_entries(*final(m))),
        scene_entries(*final(m)).to_multiset() == scene_entries(*old(m)).to_multiset(),
{
    m.sort_keys();
}

/// Calls `IndexMap::get_index_mut` with an index below the map's length: the value
/// at that place, to be changed where it is. The key and all other entries stay.
#[verifier::external_body]
pub(crate) fn scene_state_mut(m: &mut IndexMap<String, IndexMap<String, SceneValue>>, index: usize) -> (state: &mut IndexMap<
    String,
    SceneValue,
>)
    requires
        index < scene_entries(*old(m)).len(),
    ensures
        state_entries(*state) == scene_entries(*old(m))[index as int].1,
        scene_entries(*final(m)) == scene_entries(*old(m)).update(
            index as int,
            (scene_entries(*old(m))[index as int].0, state_entries(*final(state))),
        ),
{
    m.get_index_mut(index).unwrap().1
}

/// A named snapshot of macro values: for each fixture label, for each macro label,
/// the value to recall.
#[derive(Debug)]
pub struct Scene {
    pub label: String,
    pub state: IndexMap<String, IndexMap<String, SceneValue>>,
    pub is_editing: bool,
    pub last_active: bool,
    /// The length in milliseconds of the next transition that a user asks for.
    pub next_transition: u64,
}

/// The value that a scene stores for a macro: the macro's current value.
pub open spec fn macro_value(m: FixtureMacro) -> SceneValue {
    match m {
        FixtureMacro::Control(v) => SceneValue::ControlValue(v.current_value),
        FixtureMacro::Colour(c) => SceneValue::ColourValue(c.current_value),
    }
}

/// The snapshot of a list of macros: each macro's value under its label, inserted in
/// the order of the list.
pub open spec fn captured_state(macros: Seq<FixtureMacro>) -> Seq<(Seq<char>, SceneValue)>
    decreases macros.len(),
{
    if macros.len() == 0 {
        Seq::empty()
    } else {
        inserted(captured_state(macros.drop_last()), macros.last().label_view(), macro_value(macros.last()))
    }
}

/// The fixtures of a scene after a capture: each fixture's snapshot under its label,
/// inserted in the order of the list into what the scene held.
pub open spec fn captured_onto(
    held: Seq<(Seq<char>, Seq<(Seq<char>, SceneValue)>)>,
    fixtures: Seq<FixtureInstance>,
) -> Seq<(Seq<char>, Seq<(Seq<char>, SceneValue)>)>
    decreases fixtures.len(),
{
    if fixtures.len() == 0 {
        held
    } else {
        inserted(
            captured_onto(held, fixtures.drop_last()),
            fixtures.last().label@,
            captured_state(fixtures.last().macros()),
        )
    }
}

/// The value of a macro as a scene stores it.
pub fn value_of(m: &FixtureMacro) -> (v: SceneValue)
    ensures
        v == macro_value(*m),
{
    match m {
        FixtureMacro::Control(c) => SceneValue::ControlValue(c.current_value),
        FixtureMacro::Colour(c) => SceneValue::ColourValue(c.current_value),
    }
}

/// Takes the snapshot of the macros of a fixture's active mode.
pub fn capture_state(fixture: &FixtureInstance) -> (state: IndexMap<String, SceneValue>)
    ensures
        state_entries(state) == captured_state(fixture.macros()),
{
    let macros = &fixture.config.active_mode.macros;
    let mut state = state_new();
    let n = macros.len();
    let mut i: usize = 0;
    assert(macros@.take(0) =~= Seq::<FixtureMacro>::empty());
    while i < n
        invariant
            n == macros.len(),
            i <= n,
            state_entries(state) == captured_state(macros@.take(i as int)),
        decreases n - i,
    {
        let m = &macros[i];
        state_insert(&mut state, m.label().clone(), value_of(m));
        proof {
            let prefix = macros@.take(i as int + 1);
            assert(prefix.drop_last() =~= macros@.take(i as int));
            assert(prefix.last() == macros@[i as int]);
        }
        i += 1;
    }
    assert(macros@.take(n as int) =~= macros@);
    state
}

/// Puts the snapshot of each fixture into a scene's state under the fixture's label.
pub fn capture_into(state: &mut IndexMap<String, IndexMap<String, SceneValue>>, fixtures: &Vec<FixtureInstance>)
    ensures
        scene_entries(*final(state)) == captured_onto(scene_entries(*old(state)), fixtures@),
{
    let n = fixtures.len();
    let mut i: usize = 0;
    assert(fixtures@.take(0) =~= Seq::<FixtureInstance>::empty());
    while i < n
        invariant
            n == fixtures.len(),
            i <= n,
            scene_entries(*state) == captured_onto(scene_entries(*old(state)), fixtures@.take(i as int)),
        decreases n - i,
    {
        let f = &fixtures[i];
        let snapshot = capture_state(f);
        scene_insert(state, f.label.clone(), snapshot);
        proof {
            let prefix = fixtures@.take(i as int + 1);
            assert(prefix.drop_last() =~= fixtures@.take(i as int));
            assert(prefix.last() == fixtures@[i as int]);
        }
        i += 1;
    }
    assert(fixtures@.take(n as int) =~= fixtures@);
}

impl Labelled for Scene {
    open spec fn label_seq(&self) -> Seq<char> {
        self.label@
    }

    fn label_text(&self) -> (label: &str) {
        self.label.as_str()
    }
}

/// `post` holds what `pre` holds, with the macro values of each fixture in the
/// alphabetical order of the macro labels.
pub open spec fn states_sorted(
    pre: Seq<(Seq<char>, Seq<(Seq<char>, SceneValue)>)>,
    post: Seq<(Seq<char>, Seq<(Seq<char>, SceneValue)>)>,
) -> bool {
    &&& post.len() == pre.len()
    &&& forall|i: int|
        0 <= i < pre.len() ==> {
            &&& (#[trigger] post[i]).0 == pre[i].0
            &&& keys_sorted(post[i].1)
            &&& post[i].1.to_multiset() == pre[i].1.to_multiset()
        }
}

/// A scene's entries after its keys have been sorted: the fixtures are in the
/// alphabetical order of their labels, and so are the macro values of each fixture.
pub open spec fn keys_normalised(
    pre: Seq<(Seq<char>, Seq<(Seq<char>, SceneValue)>)>,
    post: Seq<(Seq<char>, Seq<(Seq<char>, SceneValue)>)>,
) -> bool {
    &&& keys_sorted(post)
    &&& exists|mid: Seq<(Seq<char>, Seq<(Seq<char>, SceneValue)>)>| #[trigger]
        states_sorted(pre, mid) && post.to_multiset() == mid.to_multiset()
}

impl Scene {
    /// Puts the fixtures of the scene, and the macro values of each, in the
    /// alphabetical order of their labels.
    pub fn sort_keys(&mut self)
        ensures
            *final(self) == (Scene { state: final(self).state, ..*old(self) }),
            keys_normalised(old(self).entries(), final(self).entries()),
    {
        let n = scene_len(&self.state);
        let mut i: usize = 0;
        while i < n
            invariant
                *self == (Scene { state: self.state, ..*old(self) }),
                n == old(self).entries().len(),
                n == self.entries().len(),
                i <= n,
                forall|k: int|
                    0 <= k < i ==> {
                        &&& (#[trigger] self.entries()[k]).0 == old(self).entries()[k].0
                        &&& keys_sorted(self.entries()[k].1)
                        &&& self.entries()[k].1.to_multiset() == old(self).entries()[k].1.to_multiset()
                    },
                forall|k: int| i <= k < n ==> self.entries()[k] == old(self).entries()[k],
            decreases n - i,
        {
            let state = scene_state_mut(&mut self.state, i);
            state_sort_keys(state);
            i += 1;
        }
        let ghost mid = self.entries();
        assert(states_sorted(old(self).entries(), mid));
        scene_sort_keys(&mut self.state);
    }

    /// The fixtures of the scene, in order: label and macro values.
    pub open spec fn entries(self) -> Seq<(Seq<char>, Seq<(Seq<char>, SceneValue)>)> {
        scene_entries(self.state)
    }

    /// A new scene that holds the current value of every macro of every fixture. It
    /// is open for editing and has not been recalled.
    pub fn capture(label: String, fixtures: &Vec<FixtureInstance>) -> (scene: Scene)
        ensures
            scene.label == label,
            scene.entries() == captured_onto(Seq::empty(), fixtures@),
            scene.is_editing,
            !scene.last_active,
            scene.next_transition == 0,
    {
        let mut state = scene_new();
        capture_into(&mut state, fixtures);
        Scene { label, state, is_editing: true, last_active: false, next_transition: 0 }
    }

    /// Saves the current value of every macro of every fixture over what the scene
    /// held for that fixture, and closes the scene for editing.
    pub fn recapture(&mut self, fixtures: &Vec<FixtureInstance>)
        ensures
            final(self).entries() == captured_onto(old(self).entries(), fixtures@),
            !final(self).is_editing,
            final(self).label == old(self).label,
            final(self).last_active == old(self).last_active,
            final(self).next_transition == old(self).next_transition,
    {
        self.is_editing = false;
        capture_into(&mut self.state, fixtures);
    }
}

/// A macro after it has been sent a value. A control value goes to a control macro
/// and a colour to a colour macro; a value of the other kind leaves the macro as it
/// is. Without a duration the macro takes the value at once and any animation in
/// flight is dropped; with a duration a new animation, in place of any in flight,
/// runs from the macro's present value to the value sent.
pub open spec fn macro_after_value(m: FixtureMacro, value: SceneValue, ms: Option<u64>, now: u64) -> FixtureMacro {
    match (m, value) {
        (FixtureMacro::Control(c), SceneValue::ControlValue(x)) => FixtureMacro::Control(
            match ms {
                Some(d) => ValueMacro { animation: Some(Animation::started(d, c.current_value, x, now)), ..c },
                None => ValueMacro { current_value: x, animation: None, ..c },
            },
        ),
        (FixtureMacro::Colour(c), SceneValue::ColourValue(x)) => FixtureMacro::Colour(
            match ms {
                Some(d) => ColourMacro {
                    animation: Some((Animation::started(d, 0, 65535, now), c.current_value, x)),
                    ..c
                },
                None => ColourMacro { current_value: x, animation: None, ..c },
            },
        ),
        _ => m,
    }
}

/// A macro after a scene's values for its fixture have been recalled: it is sent
/// the value stored under its label, if there is one.
pub open spec fn macro_after_recall(
    m: FixtureMacro,
    state: Seq<(Seq<char>, SceneValue)>,
    ms: Option<u64>,
    now: u64,
) -> FixtureMacro {
    match lookup(state, m.label_view()) {
        Some(value) => macro_after_value(m, value, ms, now),
        None => m,
    }
}

/// A list of macros after the values of one fixture of a scene have been recalled.
pub open spec fn macros_after_entry(
    macros: Seq<FixtureMacro>,
    state: Seq<(Seq<char>, SceneValue)>,
    ms: Option<u64>,
    now: u64,
) -> Seq<FixtureMacro> {
    Seq::new(macros.len(), |i: int| macro_after_recall(macros[i], state, ms, now))
}

/// Whether a scene's entry for a fixture label is meant for a fixture: the labels
/// match up to ASCII case and, if fixtures are filtered, the filter holds the
/// entry's label itself.
pub open spec fn entry_targets(entry_label: Seq<char>, fixture_label: Seq<char>, filter: Option<Vec<String>>) -> bool {
    &&& match filter {
        Some(list) => list_has(list@, entry_label),
        None => true,
    }
    &&& labels_match(entry_label, fixture_label)
}

/// The macros of a fixture after a scene has been recalled: the entries meant for
/// the fixture are recalled in the scene's order.
pub open spec fn macros_after_scene(
    macros: Seq<FixtureMacro>,
    fixture_label: Seq<char>,
    entries: Seq<(Seq<char>, Seq<(Seq<char>, SceneValue)>)>,
    filter: Option<Vec<String>>,
    ms: Option<u64>,
    now: u64,
) -> Seq<FixtureMacro>
    decreases entries.len(),
{
    if entries.len() == 0 {
        macros
    } else {
        let before = macros_after_scene(macros, fixture_label, entries.drop_last(), filter, ms, now);
        if entry_targets(entries.last().0, fixture_label, filter) {
            macros_after_entry(before, entries.last().1, ms, now)
        } else {
            before
        }
    }
}

/// Sends a value to a macro: at once, or over `ms` milliseconds from `now`.
pub fn set_macro(m: &mut FixtureMacro, value: SceneValue, ms: Option<u64>, now: u64)
    ensures
        *final(m) == macro_after_value(*old(m), value, ms, now),
{
    match m {
        FixtureMacro::Control(c) => {
            if let SceneValue::ControlValue(x) = value {
                match ms {
                    Some(d) => {
                        c.animation = Some(Animation::new(d, c.current_value, x, now));
                    },
                    None => {
                        c.animation = None;
                        c.current_value = x;
                    },
                }
            }
        },
        FixtureMacro::Colour(c) => {
            if let SceneValue::ColourValue(x) = value {
                match ms {
                    Some(d) => {
                        c.animation = Some((Animation::new(d, 0, 65535, now), c.current_value, x));
                    },
                    None => {
                        c.animation = None;
                        c.current_value = x;
                    },
                }
            }
        },
    }
}

/// Recalls a scene's value for one macro, if the scene's state for the fixture holds
/// one under the macro's label.
pub fn recall_macro(m: &mut FixtureMacro, state: &IndexMap<String, SceneValue>, ms: Option<u64>, now: u64)
    ensures
        *final(m) == macro_after_recall(*old(m), state_entries(*state), ms, now),
{
    match state_get(state, m.label().as_str()) {
        Some(value) => set_macro(m, value, ms, now),
        None => {},
    }
}

/// Recalls the values of one fixture of a scene for each macro of a list.
pub fn recall_entry(macros: &mut Vec<FixtureMacro>, state: &IndexMap<String, SceneValue>, ms: Option<u64>, now: u64)
    ensures
        final(macros)@ == macros_after_entry(old(macros)@, state_entries(*state), ms, now),
{
    let n = macros.len();
    let mut i: usize = 0;
    while i < n
        invariant
            n == macros.len(),
            n == old(macros).len(),
            i <= n,
            forall|k: int| 0 <= k < i ==> macros[k] == macro_after_recall(old(macros)[k], state_entries(*state), ms, now),
            forall|k: int| i <= k < n ==> macros[k] == old(macros)[k],
        decreases n - i,
    {
        recall_macro(&mut macros[i], state, ms, now);
        i += 1;
    }
    assert(macros@ =~= macros_after_entry(old(macros)@, state_entries(*state), ms, now));
}

/// Recalls a scene for one fixture.
pub fn recall_fixture(
    fixture: &mut FixtureInstance,
    scene_state: &IndexMap<String, IndexMap<String, SceneValue>>,
    filter: &Option<Vec<String>>,
    ms: Option<u64>,
    now: u64,
)
    ensures
        FixtureInstance::with_macros(
            *old(fixture),
            *final(fixture),
            macros_after_scene(old(fixture).macros(), old(fixture).label@, scene_entries(*scene_state), *filter, ms, now),
        ),
{
    let n = scene_len(scene_state);
    let mut j: usize = 0;
    let ghost entries = scene_entries(*scene_state);
    assert(entries.take(0) =~= Seq::<(Seq<char>, Seq<(Seq<char>, SceneValue)>)>::empty());
    while j < n
        invariant
            n == entries.len(),
            entries == scene_entries(*scene_state),
            j <= n,
            FixtureInstance::with_macros(
                *old(fixture),
                *fixture,
                macros_after_scene(old(fixture).macros(), old(fixture).label@, entries.take(j as int), *filter, ms, now),
            ),
        decreases n - j,
    {
        let (entry_label, state) = scene_get_index(scene_state, j);
        let in_filter = match filter {
            Some(list) => list_contains(list, entry_label),
            None => true,
        };
        let targeted = in_filter && eq_ignore_ascii_case(entry_label.as_str(), fixture.label.as_str());
        if targeted {
            recall_entry(&mut fixture.config.active_mode.macros, state, ms, now);
        }
        proof {
            let prefix = entries.take(j as int + 1);
            assert(prefix.drop_last() =~= entries.take(j as int));
            assert(prefix.last() == entries[j as int]);
        }
        j += 1;
    }
    assert(entries.take(n as int) =~= entries);
}

/// No two macros of the list have the same label.
pub open spec fn macro_labels_distinct(macros: Seq<FixtureMacro>) -> bool {
    forall|i: int, j: int|
        0 <= i < macros.len() && 0 <= j < macros.len() && i != j ==> (#[trigger] macros[i]).label_view() != (
        #[trigger] macros[j]).label_view()
}

/// No two fixtures of the list have labels that match up to ASCII case.
pub open spec fn fixture_labels_distinct(fixtures: Seq<FixtureInstance>) -> bool {
    forall|i: int, j: int|
        0 <= i < fixtures.len() && 0 <= j < fixtures.len() && i != j ==> !labels_match(
            (#[trigger] fixtures[i]).label@,
            (#[trigger] fixtures[j]).label@,
        )
}

/// Two macros have the same label and are of the same kind.
pub open spec fn same_slot(a: FixtureMacro, b: FixtureMacro) -> bool {
    &&& a.label_view() == b.label_view()
    &&& (a is Control) == (b is Control)
}

/// Two lists of fixtures have the same labels and, fixture by fixture, macros with
/// the same labels and of the same kinds; the values of the macros may differ.
pub open spec fn same_shape(a: Seq<FixtureInstance>, b: Seq<FixtureInstance>) -> bool {
    &&& a.len() == b.len()
    &&& forall|i: int|
        0 <= i < a.len() ==> {
            &&& (#[trigger] a[i]).label@ == b[i].label@
            &&& a[i].macros().len() == b[i].macros().len()
            &&& forall|k: int| 0 <= k < a[i].macros().len() ==> same_slot(#[trigger] a[i].macros()[k], b[i].macros()[k])
        }
}

/// The snapshot of macros with distinct labels holds one entry per macro, in order.
pub proof fn lemma_captured_state_distinct(macros: Seq<FixtureMacro>)
    requires
        macro_labels_distinct(macros),
    ensures
        captured_state(macros) == Seq::new(macros.len(), |k: int| (macros[k].label_view(), macro_value(macros[k]))),
        keys_unique(captured_state(macros)),
    decreases macros.len(),
{
    let want = Seq::new(macros.len(), |k: int| (macros[k].label_view(), macro_value(macros[k])));
    if macros.len() == 0 {
        assert(captured_state(macros) =~= want);
    } else {
        let front = macros.drop_last();
        assert forall|i: int, j: int| 0 <= i < front.len() && 0 <= j < front.len() && i != j implies (
        #[trigger] front[i]).label_view() != (#[trigger] front[j]).label_view() by {
            assert(front[i] == macros[i]);
            assert(front[j] == macros[j]);
        }
        lemma_captured_state_distinct(front);
        let held = captured_state(front);
        let key = macros.last().label_view();
        if has_key(held, key) {
            let i = choose|i: int| 0 <= i < held.len() && (#[trigger] held[i]).0 == key;
            assert(front[i] == macros[i]);
            assert(macros[i].label_view() == macros[macros.len() - 1].label_view());
        }
        assert(captured_state(macros) =~= want) by {
            assert forall|k: int| 0 <= k < macros.len() - 1 implies held[k] == want[k] by {
                assert(front[k] == macros[k]);
            }
        }
    }
    assert forall|i: int, j: int| 0 <= i < want.len() && 0 <= j < want.len() && i != j implies (#[trigger] want[i]).0 != (
    #[trigger] want[j]).0 by {
        assert(macros[i].label_view() != macros[j].label_view());
    }
}

/// A lookup by the key of an entry of a list with unique keys gives that entry's value.
pub proof fn lemma_lookup_at<V>(entries: Seq<(Seq<char>, V)>, i: int)
    requires
        keys_unique(entries),
        0 <= i < entries.len(),
    ensures
        lookup(entries, entries[i].0) == Some(entries[i].1),
{
    let key = entries[i].0;
    assert(has_key(entries, key));
    let j = index_of(entries, key);
    assert(entries[j].0 == key);
    if j != i {
        assert(entries[i].0 != entries[j].0);
    }
}

/// The scene captured from fixtures with distinct labels holds one entry per
/// fixture, in order.
pub proof fn lemma_captured_onto_distinct(fixtures: Seq<FixtureInstance>)
    requires
        fixture_labels_distinct(fixtures),
    ensures
        captured_onto(Seq::empty(), fixtures) == Seq::new(
            fixtures.len(),
            |i: int| (fixtures[i].label@, captured_state(fixtures[i].macros())),
        ),
    decreases fixtures.len(),
{
    let want = Seq::new(fixtures.len(), |i: int| (fixtures[i].label@, captured_state(fixtures[i].macros())));
    if fixtures.len() == 0 {
        assert(captured_onto(Seq::empty(), fixtures) =~= want);
    } else {
        let front = fixtures.drop_last();
        assert forall|i: int, j: int| 0 <= i < front.len() && 0 <= j < front.len() && i != j implies !labels_match(
            (#[trigger] front[i]).label@,
            (#[trigger] front[j]).label@,
        ) by {
            assert(front[i] == fixtures[i]);
            assert(front[j] == fixtures[j]);
        }
        lemma_captured_onto_distinct(front);
        let held = captured_onto(Seq::empty(), front);
        let key = fixtures.last().label@;
        if has_key(held, key) {
            let i = choose|i: int| 0 <= i < held.len() && (#[trigger] held[i]).0 == key;
            assert(front[i] == fixtures[i]);
            assert(labels_match(fixtures[i].label@, fixtures[fixtures.len() - 1].label@));
        }
        assert(captured_onto(Seq::empty(), fixtures) =~= want) by {
            assert forall|k: int| 0 <= k < fixtures.len() - 1 implies held[k] == want[k] by {
                assert(front[k] == fixtures[k]);
            }
        }
    }
}

/// Where the entries of a scene are those of fixtures with distinct labels, a recall
/// without a filter touches a fixture through its own entry alone.
proof fn lemma_recall_own_entry(
    macros: Seq<FixtureMacro>,
    fixtures: Seq<FixtureInstance>,
    t: int,
    j: int,
    ms: Option<u64>,
    now: u64,
)
    requires
        fixture_labels_distinct(fixtures),
        0 <= t < fixtures.len(),
        0 <= j <= fixtures.len(),
    ensures
        ({
            let entries = Seq::new(fixtures.len(), |i: int| (fixtures[i].label@, captured_state(fixtures[i].macros())));
            macros_after_scene(macros, fixtures[t].label@, entries.take(j), None, ms, now) == if j > t {
                macros_after_entry(macros, captured_state(fixtures[t].macros()), ms, now)
            } else {
                macros
            }
        }),
    decreases j,
{
    let entries = Seq::new(fixtures.len(), |i: int| (fixtures[i].label@, captured_state(fixtures[i].macros())));
    if j > 0 {
        lemma_recall_own_entry(macros, fixtures, t, j - 1, ms, now);
        let prefix = entries.take(j);
        assert(prefix.drop_last() =~= entries.take(j - 1));
        assert(prefix.last() == entries[j - 1]);
        if j - 1 != t {
            assert(!labels_match(fixtures[j - 1].label@, fixtures[t].label@));
        }
    }
}

/// Capturing a scene and recalling it at once brings back every captured value.
///
/// Let a scene be captured from fixtures whose labels are distinct up to ASCII case
/// and whose macros have distinct labels within each fixture. Whatever values the
/// macros hold later, a recall of the scene without a duration and without a
/// filter leaves every macro with exactly the value it had at the capture, and with
/// no animation in flight.
pub proof fn lemma_capture_recall_round_trip(
    captured: Seq<FixtureInstance>,
    later: Seq<FixtureInstance>,
    now: u64,
    t: int,
    k: int,
)
    requires
        fixture_labels_distinct(captured),
        forall|i: int| 0 <= i < captured.len() ==> macro_labels_distinct(#[trigger] captured[i].macros()),
        same_shape(captured, later),
        0 <= t < captured.len(),
        0 <= k < captured[t].macros().len(),
    ensures
        ({
            let scene = captured_onto(Seq::empty(), captured);
            let recalled = macros_after_scene(later[t].macros(), later[t].label@, scene, None, None, now);
            &&& recalled.len() == later[t].macros().len()
            &&& macro_value(recalled[k]) == macro_value(captured[t].macros()[k])
            &&& !recalled[k].animating()
            &&& same_slot(recalled[k], later[t].macros()[k])
        }),
{
    let scene = captured_onto(Seq::empty(), captured);
    lemma_captured_onto_distinct(captured);
    let entries = Seq::new(captured.len(), |i: int| (captured[i].label@, captured_state(captured[i].macros())));
    lemma_recall_own_entry(later[t].macros(), captured, t, captured.len() as int, None, now);
    assert(entries.take(captured.len() as int) =~= entries);
    assert(captured[t].label@ == later[t].label@);
    let state = captured_state(captured[t].macros());
    assert(macro_labels_distinct(captured[t].macros()));
    lemma_captured_state_distinct(captured[t].macros());
    lemma_lookup_at(state, k);
    assert(same_slot(captured[t].macros()[k], later[t].macros()[k]));
}

} // verus!
