// Factory presets of Oasis Shift and stepping through them.
use vstd::prelude::*;

use crate::presets::{
    categories_of, entries_of, label_at, names_of, preset_label, spec_next_index, spec_prev_index,
    step_back, step_forward, well_formed_bank, FactoryPreset,
};

verus! {

/// Number of factory presets.
pub const PRESET_COUNT: usize = 7;

/// The parameter ids that presets may set.
pub open spec fn param_ids() -> Seq<Seq<char>> {
    seq![
        "semitones"@,
        "cents"@,
        "detune"@,
        "mode"@,
        "mix"@,
        "output_gain"@,
    ]
}

/// The names of the factory presets, in browsing order.
pub open spec fn preset_names() -> Seq<Seq<char>> {
    seq![
        "Init"@,
        "Octave Down"@,
        "Fifth Up"@,
        "Subtle Detune"@,
        "ADT Thicken"@,
        "Harmony Third"@,
        "Chipmunk"@,
    ]
}

/// The categories of the factory presets, in browsing order.
pub open spec fn preset_categories() -> Seq<Seq<char>> {
    seq![
        "Default"@,
        "Creative"@,
        "Creative"@,
        "Mixing"@,
        "Mixing"@,
        "Creative"@,
        "Creative"@,
    ]
}

/// The parameter values of the factory presets, in browsing order: pairs of
/// parameter id and normalized value in units of `1 / NORMALIZED_ONE`.
pub open spec fn preset_entries() -> Seq<Seq<(Seq<char>, u16)>> {
    seq![
        seq![
            ("semitones"@, 5000u16),
            ("cents"@, 5000u16),
            ("detune"@, 0u16),
            ("mode"@, 0u16),
            ("mix"@, 10000u16),
            ("output_gain"@, 5000u16),
        ],
        seq![
            ("semitones"@, 2500u16),
            ("cents"@, 5000u16),
            ("detune"@, 0u16),
            ("mode"@, 0u16),
            ("mix"@, 10000u16),
            ("output_gain"@, 5000u16),
        ],
        seq![
            ("semitones"@, 6458u16),
            ("cents"@, 5000u16),
            ("detune"@, 0u16),
            ("mode"@, 0u16),
            ("mix"@, 5000u16),
            ("output_gain"@, 5000u16),
        ],
        seq![
            ("semitones"@, 5000u16),
            ("cents"@, 5000u16),
            ("detune"@, 1600u16),
            ("mode"@, 10000u16),
            ("mix"@, 10000u16),
            ("output_gain"@, 5000u16),
        ],
        seq![
            ("semitones"@, 5000u16),
            ("cents"@, 5000u16),
            ("detune"@, 3000u16),
            ("mode"@, 10000u16),
            ("mix"@, 5000u16),
            ("output_gain"@, 5000u16),
        ],
        seq![
            ("semitones"@, 5833u16),
            ("cents"@, 5000u16),
            ("detune"@, 0u16),
            ("mode"@, 0u16),
            ("mix"@, 5000u16),
            ("output_gain"@, 5000u16),
        ],
        seq![
            ("semitones"@, 7500u16),
            ("cents"@, 5000u16),
            ("detune"@, 0u16),
            ("mode"@, 0u16),
            ("mix"@, 10000u16),
            ("output_gain"@, 5000u16),
        ],
    ]
}

/// The factory presets, each value normalized to `0 ..= NORMALIZED_ONE`.
pub fn factory_presets() -> (presets: Vec<FactoryPreset>)
    ensures
        presets.len() == PRESET_COUNT,
        names_of(presets@) == preset_names(),
        categories_of(presets@) == preset_categories(),
        entries_of(presets@) == preset_entries(),
        well_formed_bank(presets@, param_ids()),
{
    let presets = vec![
        FactoryPreset {
            name: "Init",
            category: "Default",
            values: vec![
                ("semitones", 5000),
                ("cents", 5000),
                ("detune", 0),
                ("mode", 0),
                ("mix", 10000),
                ("output_gain", 5000),
            ],
        },
        FactoryPreset {
            name: "Octave Down",
            category: "Creative",
            values: vec![
                ("semitones", 2500),
                ("cents", 5000),
                ("detune", 0),
                ("mode", 0),
                ("mix", 10000),
                ("output_gain", 5000),
            ],
        },
        FactoryPreset {
            name: "Fifth Up",
            category: "Creative",
            values: vec![
                ("semitones", 6458),
                ("cents", 5000),
                ("detune", 0),
                ("mode", 0),
                ("mix", 5000),
                ("output_gain", 5000),
            ],
        },
        FactoryPreset {
            name: "Subtle Detune",
            category: "Mixing",
            values: vec![
                ("semitones", 5000),
                ("cents", 5000),
                ("detune", 1600),
                ("mode", 10000),
                ("mix", 10000),
                ("output_gain", 5000),
            ],
        },
        FactoryPreset {
            name: "ADT Thicken",
            category: "Mixing",
            values: vec![
                ("semitones", 5000),
                ("cents", 5000),
                ("detune", 3000),
                ("mode", 10000),
                ("mix", 5000),
                ("output_gain", 5000),
            ],
        },
        FactoryPreset {
            name: "Harmony Third",
            category: "Creative",
            values: vec![
                ("semitones", 5833),
                ("cents", 5000),
                ("detune", 0),
                ("mode", 0),
                ("mix", 5000),
                ("output_gain", 5000),
            ],
        },
        FactoryPreset {
            name: "Chipmunk",
            category: "Creative",
            values: vec![
                ("semitones", 7500),
                ("cents", 5000),
                ("detune", 0),
                ("mode", 0),
                ("mix", 10000),
                ("output_gain", 5000),
            ],
        },
    ];
    assert(names_of(presets@) =~= preset_names());
    assert(categories_of(presets@) =~= preset_categories());
    assert(presets@[0].entries() =~= preset_entries()[0]);
    assert(presets@[1].entries() =~= preset_entries()[1]);
    assert(presets@[2].entries() =~= preset_entries()[2]);
    assert(presets@[3].entries() =~= preset_entries()[3]);
    assert(presets@[4].entries() =~= preset_entries()[4]);
    assert(presets@[5].entries() =~= preset_entries()[5]);
    assert(presets@[6].entries() =~= preset_entries()[6]);
    assert(entries_of(presets@) =~= preset_entries());
    presets
}

/// The name of the preset at `current`, or "Custom" when `current` is not the
/// index of a factory preset.
pub fn current_preset_name(current: usize) -> (name: &'static str)
    ensures
        name@ == preset_label(preset_names(), current as int),
{
    label_at(&factory_presets(), current)
}

/// The number of factory presets.
pub fn preset_count() -> (count: usize)
    ensures
        count == preset_names().len(),
{
    PRESET_COUNT
}

/// Advances `current` to the next preset, from the last back to the first,
/// and returns the index it held before.
pub fn next_preset(current: &mut usize) -> (previous: usize)
    requires
        *old(current) < usize::MAX,
    ensures
        previous == *old(current),
        *final(current) == spec_next_index(*old(current) as int, preset_names().len() as int),
{
    step_forward(current, PRESET_COUNT)
}

/// Moves `current` back to the previous preset, from the first to the last,
/// and returns the index it held before.
pub fn prev_preset(current: &mut usize) -> (previous: usize)
    ensures
        previous == *old(current),
        *final(current) == spec_prev_index(*old(current) as int, preset_names().len() as int),
{
    step_back(current, PRESET_COUNT)
}

/// The browser shows "Custom" exactly when the current index is not that of a
/// factory preset: no factory preset is named "Custom".
pub proof fn law_custom_only_outside_bank(current: int)
    ensures
        (preset_label(preset_names(), current) == "Custom"@) <==> !(0 <= current < preset_names().len()),
{
    reveal_strlit("Custom");
    reveal_strlit("Init");
    reveal_strlit("Octave Down");
    reveal_strlit("Fifth Up");
    reveal_strlit("Subtle Detune");
    reveal_strlit("ADT Thicken");
    reveal_strlit("Harmony Third");
    reveal_strlit("Chipmunk");
    assert forall|i: int| 0 <= i < preset_names().len() implies preset_names()[i] != "Custom"@ by {
        if preset_names()[i].len() == "Custom"@.len() {
            assert(preset_names()[i][0] != "Custom"@[0] || preset_names()[i][1] != "Custom"@[1]);
        }
    }
}

} // verus!
