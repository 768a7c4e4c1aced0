// Factory presets of Oasis Pump and stepping through them.
use vstd::prelude::*;

use crate::presets::{
    categories_of, entries_of, label_at, names_of, preset_label, spec_next_index, spec_prev_index,
    step_back, step_forward, well_formed_bank, FactoryPreset,
};

verus! {

/// Number of factory presets.
pub const PRESET_COUNT: usize = 6;

/// The parameter ids that presets may set.
pub open spec fn param_ids() -> Seq<Seq<char>> {
    seq![
        "depth"@,
        "rate"@,
        "smoothing"@,
        "shape"@,
        "mix"@,
        "output_gain"@,
    ]
}

/// The names of the factory presets, in browsing order.
pub open spec fn preset_names() -> Seq<Seq<char>> {
    seq![
        "Init"@,
        "Sidechain Pump"@,
        "Subtle Pulse"@,
        "Trance Gate"@,
        "Half-Time Swell"@,
        "Choppy Eighth"@,
    ]
}

/// The categories of the factory presets, in browsing order.
pub open spec fn preset_categories() -> Seq<Seq<char>> {
    seq![
        "Default"@,
        "Creative"@,
        "Mixing"@,
        "Creative"@,
        "Creative"@,
        "Creative"@,
    ]
}

/// The parameter values of the factory presets, in browsing order: pairs of
/// parameter id and normalized value in units of `1 / NORMALIZED_ONE`.
pub open spec fn preset_entries() -> Seq<Seq<(Seq<char>, u16)>> {
    seq![
        seq![
            ("depth"@, 5000u16),
            ("rate"@, 3440u16),
            ("smoothing"@, 3000u16),
            ("shape"@, 0u16),
            ("mix"@, 10000u16),
            ("output_gain"@, 5000u16),
        ],
        seq![
            ("depth"@, 8500u16),
            ("rate"@, 3440u16),
            ("smoothing"@, 1500u16),
            ("shape"@, 10000u16),
            ("mix"@, 10000u16),
            ("output_gain"@, 5000u16),
        ],
        seq![
            ("depth"@, 2500u16),
            ("rate"@, 2350u16),
            ("smoothing"@, 6000u16),
            ("shape"@, 0u16),
            ("mix"@, 7000u16),
            ("output_gain"@, 5000u16),
        ],
        seq![
            ("depth"@, 10000u16),
            ("rate"@, 4940u16),
            ("smoothing"@, 0u16),
            ("shape"@, 6670u16),
            ("mix"@, 10000u16),
            ("output_gain"@, 5000u16),
        ],
        seq![
            ("depth"@, 6000u16),
            ("rate"@, 1540u16),
            ("smoothing"@, 7000u16),
            ("shape"@, 0u16),
            ("mix"@, 10000u16),
            ("output_gain"@, 5000u16),
        ],
        seq![
            ("depth"@, 7500u16),
            ("rate"@, 4940u16),
            ("smoothing"@, 1000u16),
            ("shape"@, 3330u16),
            ("mix"@, 10000u16),
            ("output_gain"@, 5000u16),
        ],
    ]
}

/// The factory presets, each value normalized to `0 ..= NORMALIZED_ONE`.
pub fn factory_presets() -> (presets: Vec<FactoryPreset>)
    ensures
        presets.len() == PRESET_COUNT,
        names_of(presets@) == preset_names(),
        categories_of(presets@) == preset_categories(),
        entries_of(presets@) == preset_entries(),
        well_formed_bank(presets@, param_ids()),
{
    let presets = vec![
        FactoryPreset {
            name: "Init",
            category: "Default",
            values: vec![
                ("depth", 5000),
                ("rate", 3440),
                ("smoothing", 3000),
                ("shape", 0),
                ("mix", 10000),
                ("output_gain", 5000),
            ],
        },
        FactoryPreset {
            name: "Sidechain Pump",
            category: "Creative",
            values: vec![
                ("depth", 8500),
                ("rate", 3440),
                ("smoothing", 1500),
                ("shape", 10000),
                ("mix", 10000),
                ("output_gain", 5000),
            ],
        },
        FactoryPreset {
            name: "Subtle Pulse",
            category: "Mixing",
            values: vec![
                ("depth", 2500),
                ("rate", 2350),
                ("smoothing", 6000),
                ("shape", 0),
                ("mix", 7000),
                ("output_gain", 5000),
            ],
        },
        FactoryPreset {
            name: "Trance Gate",
            category: "Creative",
            values: vec![
                ("depth", 10000),
                ("rate", 4940),
                ("smoothing", 0),
                ("shape", 6670),
                ("mix", 10000),
                ("output_gain", 5000),
            ],
        },
        FactoryPreset {
            name: "Half-Time Swell",
            category: "Creative",
            values: vec![
                ("depth", 6000),
                ("rate", 1540),
                ("smoothing", 7000),
                ("shape", 0),
                ("mix", 10000),
                ("output_gain", 5000),
            ],
        },
        FactoryPreset {
            name: "Choppy Eighth",
            category: "Creative",
            values: vec![
                ("depth", 7500),
                ("rate", 4940),
                ("smoothing", 1000),
                ("shape", 3330),
                ("mix", 10000),
                ("output_gain", 5000),
            ],
        },
    ];
    assert(names_of(presets@) =~= preset_names());
    assert(categories_of(presets@) =~= preset_categories());
    assert(presets@[0].entries() =~= preset_entries()[0]);
    assert(presets@[1].entries() =~= preset_entries()[1]);
    assert(presets@[2].entries() =~= preset_entries()[2]);
    assert(presets@[3].entries() =~= preset_entries()[3]);
    assert(presets@[4].entries() =~= preset_entries()[4]);
    assert(presets@[5].entries() =~= preset_entries()[5]);
    assert(entries_of(presets@) =~= preset_entries());
    presets
}

/// The name of the preset at `current`, or "Custom" when `current` is not the
/// index of a factory preset.
pub fn current_preset_name(current: usize) -> (name: &'static str)
    ensures
        name@ == preset_label(preset_names(), current as int),
{
    label_at(&factory_presets(), current)
}

/// The number of factory presets.
pub fn preset_count() -> (count: usize)
    ensures
        count == preset_names().len(),
{
    PRESET_COUNT
}

/// Advances `current` to the next preset, from the last back to the first,
/// and returns the index it held before.
pub fn next_preset(current: &mut usize) -> (previous: usize)
    requires
        *old(current) < usize::MAX,
    ensures
        previous == *old(current),
        *final(current) == spec_next_index(*old(current) as int, preset_names().len() as int),
{
    step_forward(current, PRESET_COUNT)
}

/// Moves `current` back to the previous preset, from the first to the last,
/// and returns the index it held before.
pub fn prev_preset(current: &mut usize) -> (previous: usize)
    ensures
        previous == *old(current),
        *final(current) == spec_prev_index(*old(current) as int, preset_names().len() as int),
{
    step_back(current, PRESET_COUNT)
}

/// The browser shows "Custom" exactly when the current index is not that of a
/// factory preset: no factory preset is named "Custom".
pub proof fn law_custom_only_outside_bank(current: int)
    ensures
        (preset_label(preset_names(), current) == "Custom"@) <==> !(0 <= current < preset_names().len()),
{
    reveal_strlit("Custom");
    reveal_strlit("Init");
    reveal_strlit("Sidechain Pump");
    reveal_strlit("Subtle Pulse");
    reveal_strlit("Trance Gate");
    reveal_strlit("Half-Time Swell");
    reveal_strlit("Choppy Eighth");
    assert forall|i: int| 0 <= i < preset_names().len() implies preset_names()[i] != "Custom"@ by {
        if preset_names()[i].len() == "Custom"@.len() {
            assert(preset_names()[i][0] != "Custom"@[0] || preset_names()[i][1] != "Custom"@[1]);
        }
    }
}

} // verus!
