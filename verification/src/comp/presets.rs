// Factory presets of Oasis Comp and stepping through them.
use vstd::prelude::*;

use crate::presets::{
    categories_of, entries_of, label_at, names_of, preset_label, spec_next_index, spec_prev_index,
    step_back, step_forward, well_formed_bank, FactoryPreset,
};

verus! {

/// Number of factory presets.
pub const PRESET_COUNT: usize = 6;

/// The parameter ids that presets may set.
pub open spec fn param_ids() -> Seq<Seq<char>> {
    seq![
        "threshold"@,
        "ratio"@,
        "attack"@,
        "release"@,
        "knee"@,
        "makeup"@,
        "mix"@,
        "detection"@,
        "sc_hp_freq"@,
        "output_gain"@,
    ]
}

/// The names of the factory presets, in browsing order.
pub open spec fn preset_names() -> Seq<Seq<char>> {
    seq![
        "Init"@,
        "Vocal Glue"@,
        "Drum Punch"@,
        "Bus Glue"@,
        "Gentle Squeeze"@,
        "Parallel Smash"@,
    ]
}

/// The categories of the factory presets, in browsing order.
pub open spec fn preset_categories() -> Seq<Seq<char>> {
    seq![
        "Default"@,
        "Vocals"@,
        "Drums"@,
        "Master Bus"@,
        "Mixing"@,
        "Creative"@,
    ]
}

/// The parameter values of the factory presets, in browsing order: pairs of
/// parameter id and normalized value in units of `1 / NORMALIZED_ONE`.
pub open spec fn preset_entries() -> Seq<Seq<(Seq<char>, u16)>> {
    seq![
        seq![
            ("threshold"@, 7000u16),
            ("ratio"@, 3970u16),
            ("attack"@, 3150u16),
            ("release"@, 3090u16),
            ("knee"@, 2500u16),
            ("makeup"@, 0u16),
            ("mix"@, 10000u16),
            ("detection"@, 0u16),
            ("sc_hp_freq"@, 0u16),
            ("output_gain"@, 5000u16),
        ],
        seq![
            ("threshold"@, 6000u16),
            ("ratio"@, 2810u16),
            ("attack"@, 3860u16),
            ("release"@, 3820u16),
            ("knee"@, 3330u16),
            ("makeup"@, 1000u16),
            ("mix"@, 10000u16),
            ("detection"@, 0u16),
            ("sc_hp_freq"@, 5950u16),
            ("output_gain"@, 5000u16),
        ],
        seq![
            ("threshold"@, 8000u16),
            ("ratio"@, 5130u16),
            ("attack"@, 950u16),
            ("release"@, 2740u16),
            ("knee"@, 1250u16),
            ("makeup"@, 1330u16),
            ("mix"@, 10000u16),
            ("detection"@, 0u16),
            ("sc_hp_freq"@, 0u16),
            ("output_gain"@, 5000u16),
        ],
        seq![
            ("threshold"@, 6670u16),
            ("ratio"@, 2290u16),
            ("attack"@, 4460u16),
            ("release"@, 4430u16),
            ("knee"@, 5000u16),
            ("makeup"@, 670u16),
            ("mix"@, 10000u16),
            ("detection"@, 10000u16),
            ("sc_hp_freq"@, 0u16),
            ("output_gain"@, 5000u16),
        ],
        seq![
            ("threshold"@, 5000u16),
            ("ratio"@, 1620u16),
            ("attack"@, 4990u16),
            ("release"@, 4960u16),
            ("knee"@, 5000u16),
            ("makeup"@, 1670u16),
            ("mix"@, 10000u16),
            ("detection"@, 10000u16),
            ("sc_hp_freq"@, 0u16),
            ("output_gain"@, 5000u16),
        ],
        seq![
            ("threshold"@, 6000u16),
            ("ratio"@, 6880u16),
            ("attack"@, 630u16),
            ("release"@, 2350u16),
            ("knee"@, 0u16),
            ("makeup"@, 2670u16),
            ("mix"@, 5000u16),
            ("detection"@, 0u16),
            ("sc_hp_freq"@, 0u16),
            ("output_gain"@, 5000u16),
        ],
    ]
}

/// The factory presets, each value normalized to `0 ..= NORMALIZED_ONE`.
pub fn factory_presets() -> (presets: Vec<FactoryPreset>)
    ensures
        presets.len() == PRESET_COUNT,
        names_of(presets@) == preset_names(),
        categories_of(presets@) == preset_categories(),
        entries_of(presets@) == preset_entries(),
        well_formed_bank(presets@, param_ids()),
{
    let presets = vec![
        FactoryPreset {
            name: "Init",
            category: "Default",
            values: vec![
                ("threshold", 7000),
                ("ratio", 3970),
                ("attack", 3150),
                ("release", 3090),
                ("knee", 2500),
                ("makeup", 0),
                ("mix", 10000),
                ("detection", 0),
                ("sc_hp_freq", 0),
                ("output_gain", 5000),
            ],
        },
        FactoryPreset {
            name: "Vocal Glue",
            category: "Vocals",
            values: vec![
                ("threshold", 6000),
                ("ratio", 2810),
                ("attack", 3860),
                ("release", 3820),
                ("knee", 3330),
                ("makeup", 1000),
                ("mix", 10000),
                ("detection", 0),
                ("sc_hp_freq", 5950),
                ("output_gain", 5000),
            ],
        },
        FactoryPreset {
            name: "Drum Punch",
            category: "Drums",
            values: vec![
                ("threshold", 8000),
                ("ratio", 5130),
                ("attack", 950),
                ("release", 2740),
                ("knee", 1250),
                ("makeup", 1330),
                ("mix", 10000),
                ("detection", 0),
                ("sc_hp_freq", 0),
                ("output_gain", 5000),
            ],
        },
        FactoryPreset {
            name: "Bus Glue",
            category: "Master Bus",
            values: vec![
                ("threshold", 6670),
                ("ratio", 2290),
                ("attack", 4460),
                ("release", 4430),
                ("knee", 5000),
                ("makeup", 670),
                ("mix", 10000),
                ("detection", 10000),
                ("sc_hp_freq", 0),
                ("output_gain", 5000),
            ],
        },
        FactoryPreset {
            name: "Gentle Squeeze",
            category: "Mixing",
            values: vec![
                ("threshold", 5000),
                ("ratio", 1620),
                ("attack", 4990),
                ("release", 4960),
                ("knee", 5000),
                ("makeup", 1670),
                ("mix", 10000),
                ("detection", 10000),
                ("sc_hp_freq", 0),
                ("output_gain", 5000),
            ],
        },
        FactoryPreset {
            name: "Parallel Smash",
            category: "Creative",
            values: vec![
                ("threshold", 6000),
                ("ratio", 6880),
                ("attack", 630),
                ("release", 2350),
                ("knee", 0),
                ("makeup", 2670),
                ("mix", 5000),
                ("detection", 0),
                ("sc_hp_freq", 0),
                ("output_gain", 5000),
            ],
        },
    ];
    assert(names_of(presets@) =~= preset_names());
    assert(categories_of(presets@) =~= preset_categories());
    assert(presets@[0].entries() =~= preset_entries()[0]);
    assert(presets@[1].entries() =~= preset_entries()[1]);
    assert(presets@[2].entries() =~= preset_entries()[2]);
    assert(presets@[3].entries() =~= preset_entries()[3]);
    assert(presets@[4].entries() =~= preset_entries()[4]);
    assert(presets@[5].entries() =~= preset_entries()[5]);
    assert(entries_of(presets@) =~= preset_entries());
    presets
}

/// The name of the preset at `current`, or "Custom" when `current` is not the
/// index of a factory preset.
pub fn current_preset_name(current: usize) -> (name: &'static str)
    ensures
        name@ == preset_label(preset_names(), current as int),
{
    label_at(&factory_presets(), current)
}

/// The number of factory presets.
pub fn preset_count() -> (count: usize)
    ensures
        count == preset_names().len(),
{
    PRESET_COUNT
}

/// Advances `current` to the next preset, from the last back to the first,
/// and returns the index it held before.
pub fn next_preset(current: &mut usize) -> (previous: usize)
    requires
        *old(current) < usize::MAX,
    ensures
        previous == *old(current),
        *final(current) == spec_next_index(*old(current) as int, preset_names().len() as int),
{
    step_forward(current, PRESET_COUNT)
}

/// Moves `current` back to the previous preset, from the first to the last,
/// and returns the index it held before.
pub fn prev_preset(current: &mut usize) -> (previous: usize)
    ensures
        previous == *old(current),
        *final(current) == spec_prev_index(*old(current) as int, preset_names().len() as int),
{
    step_back(current, PRESET_COUNT)
}

/// The browser shows "Custom" exactly when the current index is not that of a
/// factory preset: no factory preset is named "Custom".
pub proof fn law_custom_only_outside_bank(current: int)
    ensures
        (preset_label(preset_names(), current) == "Custom"@) <==> !(0 <= current < preset_names().len()),
{
    reveal_strlit("Custom");
    reveal_strlit("Init");
    reveal_strlit("Vocal Glue");
    reveal_strlit("Drum Punch");
    reveal_strlit("Bus Glue");
    reveal_strlit("Gentle Squeeze");
    reveal_strlit("Parallel Smash");
    assert forall|i: int| 0 <= i < preset_names().len() implies preset_names()[i] != "Custom"@ by {
        if preset_names()[i].len() == "Custom"@.len() {
            assert(preset_names()[i][0] != "Custom"@[0] || preset_names()[i][1] != "Custom"@[1]);
        }
    }
}

} // verus!
