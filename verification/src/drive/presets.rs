// Factory presets of Oasis Drive and stepping through them.
use vstd::prelude::*;

use crate::presets::{
    categories_of, entries_of, label_at, names_of, preset_label, spec_next_index, spec_prev_index,
    step_back, step_forward, well_formed_bank, FactoryPreset,
};

verus! {

/// Number of factory presets.
pub const PRESET_COUNT: usize = 6;

/// The parameter ids that presets may set.
pub open spec fn param_ids() -> Seq<Seq<char>> {
    seq![
        "drive"@,
        "input_gain"@,
        "tone"@,
        "algorithm"@,
        "mix"@,
        "output_gain"@,
    ]
}

/// The names of the factory presets, in browsing order.
pub open spec fn preset_names() -> Seq<Seq<char>> {
    seq![
        "Init"@,
        "Warm Tape"@,
        "Tube Warmth"@,
        "Transistor Edge"@,
        "Digital Crush"@,
        "Subtle Grit"@,
    ]
}

/// The categories of the factory presets, in browsing order.
pub open spec fn preset_categories() -> Seq<Seq<char>> {
    seq![
        "Default"@,
        "Mixing"@,
        "Mixing"@,
        "Creative"@,
        "Creative"@,
        "Mixing"@,
    ]
}

/// The parameter values of the factory presets, in browsing order: pairs of
/// parameter id and normalized value in units of `1 / NORMALIZED_ONE`.
pub open spec fn preset_entries() -> Seq<Seq<(Seq<char>, u16)>> {
    seq![
        seq![
            ("drive"@, 2500u16),
            ("input_gain"@, 5000u16),
            ("tone"@, 7550u16),
            ("algorithm"@, 0u16),
            ("mix"@, 10000u16),
            ("output_gain"@, 5000u16),
        ],
        seq![
            ("drive"@, 4000u16),
            ("input_gain"@, 5000u16),
            ("tone"@, 5650u16),
            ("algorithm"@, 0u16),
            ("mix"@, 8000u16),
            ("output_gain"@, 5000u16),
        ],
        seq![
            ("drive"@, 3000u16),
            ("input_gain"@, 5000u16),
            ("tone"@, 6580u16),
            ("algorithm"@, 3330u16),
            ("mix"@, 7000u16),
            ("output_gain"@, 5000u16),
        ],
        seq![
            ("drive"@, 6000u16),
            ("input_gain"@, 5630u16),
            ("tone"@, 7550u16),
            ("algorithm"@, 6670u16),
            ("mix"@, 10000u16),
            ("output_gain"@, 4580u16),
        ],
        seq![
            ("drive"@, 8000u16),
            ("input_gain"@, 6250u16),
            ("tone"@, 8880u16),
            ("algorithm"@, 10000u16),
            ("mix"@, 8500u16),
            ("output_gain"@, 4170u16),
        ],
        seq![
            ("drive"@, 1500u16),
            ("input_gain"@, 5000u16),
            ("tone"@, 6580u16),
            ("algorithm"@, 0u16),
            ("mix"@, 5000u16),
            ("output_gain"@, 5000u16),
        ],
    ]
}

/// The factory presets, each value normalized to `0 ..= NORMALIZED_ONE`.
pub fn factory_presets() -> (presets: Vec<FactoryPreset>)
    ensures
        presets.len() == PRESET_COUNT,
        names_of(presets@) == preset_names(),
        categories_of(presets@) == preset_categories(),
        entries_of(presets@) == preset_entries(),
        well_formed_bank(presets@, param_ids()),
{
    let presets = vec![
        FactoryPreset {
            name: "Init",
            category: "Default",
            values: vec![
                ("drive", 2500),
                ("input_gain", 5000),
                ("tone", 7550),
                ("algorithm", 0),
                ("mix", 10000),
                ("output_gain", 5000),
            ],
        },
        FactoryPreset {
            name: "Warm Tape",
            category: "Mixing",
            values: vec![
                ("drive", 4000),
                ("input_gain", 5000),
                ("tone", 5650),
                ("algorithm", 0),
                ("mix", 8000),
                ("output_gain", 5000),
            ],
        },
        FactoryPreset {
            name: "Tube Warmth",
            category: "Mixing",
            values: vec![
                ("drive", 3000),
                ("input_gain", 5000),
                ("tone", 6580),
                ("algorithm", 3330),
                ("mix", 7000),
                ("output_gain", 5000),
            ],
        },
        FactoryPreset {
            name: "Transistor Edge",
            category: "Creative",
            values: vec![
                ("drive", 6000),
                ("input_gain", 5630),
                ("tone", 7550),
                ("algorithm", 6670),
                ("mix", 10000),
                ("output_gain", 4580),
            ],
        },
        FactoryPreset {
            name: "Digital Crush",
            category: "Creative",
            values: vec![
                ("drive", 8000),
                ("input_gain", 6250),
                ("tone", 8880),
                ("algorithm", 10000),
                ("mix", 8500),
                ("output_gain", 4170),
            ],
        },
        FactoryPreset {
            name: "Subtle Grit",
            category: "Mixing",
            values: vec![
                ("drive", 1500),
                ("input_gain", 5000),
                ("tone", 6580),
                ("algorithm", 0),
                ("mix", 5000),
                ("output_gain", 5000),
            ],
        },
    ];
    assert(names_of(presets@) =~= preset_names());
    assert(categories_of(presets@) =~= preset_categories());
    assert(presets@[0].entries() =~= preset_entries()[0]);
    assert(presets@[1].entries() =~= preset_entries()[1]);
    assert(presets@[2].entries() =~= preset_entries()[2]);
    assert(presets@[3].entries() =~= preset_entries()[3]);
    assert(presets@[4].entries() =~= preset_entries()[4]);
    assert(presets@[5].entries() =~= preset_entries()[5]);
    assert(entries_of(presets@) =~= preset_entries());
    presets
}

/// The name of the preset at `current`, or "Custom" when `current` is not the
/// index of a factory preset.
pub fn current_preset_name(current: usize) -> (name: &'static str)
    ensures
        name@ == preset_label(preset_names(), current as int),
{
    label_at(&factory_presets(), current)
}

/// The number of factory presets.
pub fn preset_count() -> (count: usize)
    ensures
        count == preset_names().len(),
{
    PRESET_COUNT
}

/// Advances `current` to the next preset, from the last back to the first,
/// and returns the index it held before.
pub fn next_preset(current: &mut usize) -> (previous: usize)
    requires
        *old(current) < usize::MAX,
    ensures
        previous == *old(current),
        *final(current) == spec_next_index(*old(current) as int, preset_names().len() as int),
{
    step_forward(current, PRESET_COUNT)
}

/// Moves `current` back to the previous preset, from the first to the last,
/// and returns the index it held before.
pub fn prev_preset(current: &mut usize) -> (previous: usize)
    ensures
        previous == *old(current),
        *final(current) == spec_prev_index(*old(current) as int, preset_names().len() as int),
{
    step_back(current, PRESET_COUNT)
}

/// The browser shows "Custom" exactly when the current index is not that of a
/// factory preset: no factory preset is named "Custom".
pub proof fn law_custom_only_outside_bank(current: int)
    ensures
        (preset_label(preset_names(), current) == "Custom"@) <==> !(0 <= current < preset_names().len()),
{
    reveal_strlit("Custom");
    reveal_strlit("Init");
    reveal_strlit("Warm Tape");
    reveal_strlit("Tube Warmth");
    reveal_strlit("Transistor Edge");
    reveal_strlit("Digital Crush");
    reveal_strlit("Subtle Grit");
    assert forall|i: int| 0 <= i < preset_names().len() implies preset_names()[i] != "Custom"@ by {
        if preset_names()[i].len() == "Custom"@.len() {
            assert(preset_names()[i][0] != "Custom"@[0] || preset_names()[i][1] != "Custom"@[1]);
        }
    }
}

} // verus!
