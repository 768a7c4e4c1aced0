use vstd::prelude::*;

verus! {

/// The normalized value 1.0 in the fixed-point scale that preset tables use:
/// a stored value `v` stands for the normalized parameter value `v / 10000`.
pub const NORMALIZED_ONE: u16 = 10000;

/// A factory preset: a named, categorized set of normalized parameter values.
pub struct FactoryPreset {
    pub name: &'static str,
    pub category: &'static str,
    /// `(parameter id, normalized value)` pairs, the value in units of
    /// `1 / NORMALIZED_ONE`.
    pub values: Vec<(&'static str, u16)>,
}

impl FactoryPreset {
    /// The parameter ids and values of this preset, as plain text and numbers.
    pub open spec fn entries(self) -> Seq<(Seq<char>, u16)> {
        self.values@.map_values(|e: (&'static str, u16)| (e.0@, e.1))
    }
}

/// The names of a bank of presets, in order.
pub open spec fn names_of(presets: Seq<FactoryPreset>) -> Seq<Seq<char>> {
    presets.map_values(|p: FactoryPreset| p.name@)
}

/// The entries of a bank of presets, preset by preset.
pub open spec fn entries_of(presets: Seq<FactoryPreset>) -> Seq<Seq<(Seq<char>, u16)>> {
    presets.map_values(|p: FactoryPreset| p.entries())
}

/// The categories of a bank of presets, in order.
pub open spec fn categories_of(presets: Seq<FactoryPreset>) -> Seq<Seq<char>> {
    presets.map_values(|p: FactoryPreset| p.category@)
}

/// Every value of every preset lies in the normalized range `0.0 ..= 1.0`,
/// and every parameter id that a preset sets is one of `ids`.
pub open spec fn well_formed_bank(presets: Seq<FactoryPreset>, ids: Seq<Seq<char>>) -> bool {
    forall|i: int, j: int|
        0 <= i < presets.len() && 0 <= j < presets[i].values@.len() ==> {
            &&& (#[trigger] presets[i].values@[j]).1 <= NORMALIZED_ONE
            &&& ids.contains(presets[i].values@[j].0@)
        }
}

/// The label shown for the preset at `index`: its name, or "Custom" when the
/// index lies outside the bank.
pub open spec fn preset_label(names: Seq<Seq<char>>, index: int) -> Seq<char> {
    if 0 <= index < names.len() {
        names[index]
    } else {
        "Custom"@
    }
}

/// The index after `current` in a bank of `count` presets; the last preset is
/// followed by the first.
pub open spec fn spec_next_index(current: int, count: int) -> int {
    (current + 1) % count
}

/// The index before `current` in a bank of `count` presets; the first preset
/// is preceded by the last.
pub open spec fn spec_prev_index(current: int, count: int) -> int {
    if current == 0 {
        count - 1
    } else {
        current - 1
    }
}

/// The label of the preset at `index` in `presets`, or "Custom" when there is
/// no such preset.
pub fn label_at(presets: &Vec<FactoryPreset>, index: usize) -> (label: &'static str)
    ensures
        label@ == preset_label(names_of(presets@), index as int),
{
    if index < presets.len() {
        presets[index].name
    } else {
        "Custom"
    }
}

/// Moves `current` to the next preset of a bank of `count`, wrapping around,
/// and returns the index it held before.
pub fn step_forward(current: &mut usize, count: usize) -> (previous: usize)
    requires
        count > 0,
        *old(current) < usize::MAX,
    ensures
        previous == *old(current),
        *final(current) == spec_next_index(*old(current) as int, count as int),
{
    let previous = *current;
    *current = (previous + 1) % count;
    previous
}

/// Moves `current` to the previous preset of a bank of `count`, wrapping
/// around, and returns the index it held before.
pub fn step_back(current: &mut usize, count: usize) -> (previous: usize)
    requires
        count > 0,
    ensures
        previous == *old(current),
        *final(current) == spec_prev_index(*old(current) as int, count as int),
{
    let previous = *current;
    *current = if previous == 0 {
        count - 1
    } else {
        previous - 1
    };
    previous
}

/// What the user asked a preset browser to do.
#[derive(Clone, Copy, Debug, PartialEq, Eq, Structural)]
pub enum PresetAction {
    /// Step to the next preset.
    Next,
    /// Step to the previous preset.
    Previous,
    /// Load the preset at this index.
    Select(usize),
    /// Open or close the list of presets.
    ToggleList,
}

/// The index that `action` asks to load, if any: after stepping for `Next`
/// and `Previous`, the chosen one for `Select`, none for `ToggleList`.
pub open spec fn requested_index(action: PresetAction, current: int, count: int) -> Option<int> {
    match action {
        PresetAction::Next => Some(spec_next_index(current, count)),
        PresetAction::Previous => Some(spec_prev_index(current, count)),
        PresetAction::Select(index) => Some(index as int),
        PresetAction::ToggleList => None,
    }
}

/// The preset that `action` loads from a bank of `count`: the requested one
/// when it is in the bank.
pub open spec fn loaded_index(action: PresetAction, current: int, count: int) -> Option<int> {
    match requested_index(action, current, count) {
        Some(index) => if 0 <= index < count {
            Some(index)
        } else {
            None
        },
        None => None,
    }
}

/// The current-preset index after `action`. Stepping moves it whether or not
/// the new index is in the bank; a selection moves it only onto a preset of
/// the bank.
pub open spec fn browsed_index(action: PresetAction, current: int, count: int) -> int {
    match action {
        PresetAction::Next => spec_next_index(current, count),
        PresetAction::Previous => spec_prev_index(current, count),
        PresetAction::Select(index) => if index < count {
            index as int
        } else {
            current
        },
        PresetAction::ToggleList => current,
    }
}

/// Handles one action of a preset browser over a bank of `count` presets.
/// `current` is the current-preset index, `show_list` whether the list of
/// presets is open. Returns the index of the preset whose values the editor
/// must now apply, if any; loading a preset closes the list.
pub fn browse(action: PresetAction, current: &mut usize, show_list: &mut bool, count: usize) -> (load:
    Option<usize>)
    requires
        count > 0,
        action == PresetAction::Next ==> *old(current) < usize::MAX,
    ensures
        *final(current) == browsed_index(action, *old(current) as int, count as int),
        load matches Some(index) ==> loaded_index(action, *old(current) as int, count as int) == Some(index as int),
        load is None ==> loaded_index(action, *old(current) as int, count as int) is None,
        load matches Some(index) ==> index == *final(current) && !*final(show_list),
        load is None ==> *final(show_list) == (*old(show_list) != (action == PresetAction::ToggleList)),
{
    let requested = match action {
        PresetAction::Next => {
            step_forward(current, count);
            Some(*current)
        },
        PresetAction::Previous => {
            step_back(current, count);
            Some(*current)
        },
        PresetAction::Select(index) => Some(index),
        PresetAction::ToggleList => {
            *show_list = !*show_list;
            None
        },
    };
    match requested {
        Some(index) => {
            if index < count {
                *current = index;
                *show_list = false;
                Some(index)
            } else {
                None
            }
        },
        None => None,
    }
}

/// A selection of a preset of the bank loads that preset and makes it the
/// current one; a selection outside the bank changes nothing.
pub proof fn law_select_loads_chosen_preset(index: usize, current: int, count: int)
    requires
        count > 0,
    ensures
        index < count ==> loaded_index(PresetAction::Select(index), current, count) == Some(index as int)
            && browsed_index(PresetAction::Select(index), current, count) == index,
        index >= count ==> loaded_index(PresetAction::Select(index), current, count) is None
            && browsed_index(PresetAction::Select(index), current, count) == current,
{
}

/// Within the bank, `Previous` moves to the preceding preset (from the first
/// to the last) and loads it, and `Next` moves to the following preset (from
/// the last to the first) and loads it.
pub proof fn law_browse_steps_by_one(current: int, count: int)
    requires
        0 <= current < count,
    ensures
        ({
            let before = if current == 0 {
                count - 1
            } else {
                current - 1
            };
            &&& browsed_index(PresetAction::Previous, current, count) == before
            &&& loaded_index(PresetAction::Previous, current, count) == Some(before)
        }),
        ({
            let after = if current + 1 == count {
                0
            } else {
                current + 1
            };
            &&& browsed_index(PresetAction::Next, current, count) == after
            &&& loaded_index(PresetAction::Next, current, count) == Some(after)
        }),
{
    lemma_next_index_in_bank(current, count);
}

/// Stepping forward always loads a preset of the bank, namely the new current
/// one.
pub proof fn law_next_always_loads(current: int, count: int)
    requires
        count > 0,
        current >= 0,
    ensures
        loaded_index(PresetAction::Next, current, count) == Some(browsed_index(PresetAction::Next, current, count)),
{
    law_steps_stay_in_bank(current, count);
}

/// The index reached from `current` after `steps` moves forward through a bank
/// of `count` presets.
pub open spec fn steps_forward(current: int, count: int, steps: nat) -> int
    decreases steps,
{
    if steps == 0 {
        current
    } else {
        spec_next_index(steps_forward(current, count, (steps - 1) as nat), count)
    }
}

/// Stepping back undoes a step forward, and a step forward undoes a step back,
/// for every index of the bank.
pub proof fn law_steps_undo_each_other(current: int, count: int)
    requires
        0 <= current < count,
    ensures
        spec_prev_index(spec_next_index(current, count), count) == current,
        spec_next_index(spec_prev_index(current, count), count) == current,
{
    lemma_next_index_in_bank(current, count);
    lemma_next_index_in_bank(spec_prev_index(current, count), count);
}

/// Within the bank, the next index is the following one, or the first after
/// the last.
proof fn lemma_next_index_in_bank(current: int, count: int)
    requires
        0 <= current < count,
    ensures
        spec_next_index(current, count) == if current + 1 < count {
            current + 1
        } else {
            0
        },
{
    if current + 1 < count {
        vstd::arithmetic::div_mod::lemma_small_mod((current + 1) as nat, count as nat);
    } else {
        vstd::arithmetic::div_mod::lemma_mod_self_0(count);
    }
}

/// Stepping forward from any index, and stepping back from an index of the
/// bank, always lands on an index of the bank.
pub proof fn law_steps_stay_in_bank(current: int, count: int)
    requires
        count > 0,
        current >= 0,
    ensures
        0 <= spec_next_index(current, count) < count,
        current < count ==> 0 <= spec_prev_index(current, count) < count,
{
    vstd::arithmetic::div_mod::lemma_mod_bound(current + 1, count);
}

/// After `steps` moves forward from an index of the bank, the browser stands
/// at `(current + steps) % count`.
pub proof fn lemma_steps_forward_mod(current: int, count: int, steps: nat)
    requires
        0 <= current < count,
    ensures
        steps_forward(current, count, steps) == (current + steps) % count,
    decreases steps,
{
    if steps == 0 {
        vstd::arithmetic::div_mod::lemma_small_mod(current as nat, count as nat);
    } else {
        lemma_steps_forward_mod(current, count, (steps - 1) as nat);
        vstd::arithmetic::div_mod::lemma_add_mod_noop_right(1, current + steps - 1, count);
    }
}

/// Moving forward once per preset of the bank brings the browser back to the
/// preset it started from.
pub proof fn law_full_cycle_returns(current: int, count: int)
    requires
        0 <= current < count,
    ensures
        steps_forward(current, count, count as nat) == current,
{
    lemma_steps_forward_mod(current, count, count as nat);
    vstd::arithmetic::div_mod::lemma_mod_add_multiples_vanish(current, count);
    vstd::arithmetic::div_mod::lemma_small_mod(current as nat, count as nat);
}

} // verus!
