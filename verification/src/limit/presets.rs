// Factory presets of Oasis Limit and stepping through them.
use vstd::prelude::*;

use crate::presets::{
    categories_of, entries_of, label_at, names_of, preset_label, spec_next_index, spec_prev_index,
    step_back, step_forward, well_formed_bank, FactoryPreset,
};

verus! {

/// Number of factory presets.
pub const PRESET_COUNT: usize = 6;

/// The parameter ids that presets may set.
pub open spec fn param_ids() -> Seq<Seq<char>> {
    seq![
        "ceiling"@,
        "input_gain"@,
        "release"@,
        "mode"@,
        "mix"@,
        "output_gain"@,
    ]
}

/// The names of the factory presets, in browsing order.
pub open spec fn preset_names() -> Seq<Seq<char>> {
    seq![
        "Init"@,
        "Mastering Transparent"@,
        "Loud Master"@,
        "EDM Pump"@,
        "Gentle Ceiling"@,
        "Broadcast"@,
    ]
}

/// The categories of the factory presets, in browsing order.
pub open spec fn preset_categories() -> Seq<Seq<char>> {
    seq![
        "Default"@,
        "Mastering"@,
        "Mastering"@,
        "Creative"@,
        "Mixing"@,
        "Mastering"@,
    ]
}

/// The parameter values of the factory presets, in browsing order: pairs of
/// parameter id and normalized value in units of `1 / NORMALIZED_ONE`.
pub open spec fn preset_entries() -> Seq<Seq<(Seq<char>, u16)>> {
    seq![
        seq![
            ("ceiling"@, 9750u16),
            ("input_gain"@, 0u16),
            ("release"@, 2930u16),
            ("mode"@, 0u16),
            ("mix"@, 10000u16),
            ("output_gain"@, 5000u16),
        ],
        seq![
            ("ceiling"@, 9750u16),
            ("input_gain"@, 0u16),
            ("release"@, 2930u16),
            ("mode"@, 5000u16),
            ("mix"@, 10000u16),
            ("output_gain"@, 5000u16),
        ],
        seq![
            ("ceiling"@, 9920u16),
            ("input_gain"@, 2500u16),
            ("release"@, 2930u16),
            ("mode"@, 5000u16),
            ("mix"@, 10000u16),
            ("output_gain"@, 5000u16),
        ],
        seq![
            ("ceiling"@, 9170u16),
            ("input_gain"@, 3330u16),
            ("release"@, 1260u16),
            ("mode"@, 2500u16),
            ("mix"@, 10000u16),
            ("output_gain"@, 5000u16),
        ],
        seq![
            ("ceiling"@, 9170u16),
            ("input_gain"@, 830u16),
            ("release"@, 4130u16),
            ("mode"@, 0u16),
            ("mix"@, 8000u16),
            ("output_gain"@, 5000u16),
        ],
        seq![
            ("ceiling"@, 9170u16),
            ("input_gain"@, 1670u16),
            ("release"@, 4130u16),
            ("mode"@, 5000u16),
            ("mix"@, 10000u16),
            ("output_gain"@, 5000u16),
        ],
    ]
}

/// The factory presets, each value normalized to `0 ..= NORMALIZED_ONE`.
pub fn factory_presets() -> (presets: Vec<FactoryPreset>)
    ensures
        presets.len() == PRESET_COUNT,
        names_of(presets@) == preset_names(),
        categories_of(presets@) == preset_categories(),
        entries_of(presets@) == preset_entries(),
        well_formed_bank(presets@, param_ids()),
{
    let presets = vec![
        FactoryPreset {
            name: "Init",
            category: "Default",
            values: vec![
                ("ceiling", 9750),
                ("input_gain", 0),
                ("release", 2930),
                ("mode", 0),
                ("mix", 10000),
                ("output_gain", 5000),
            ],
        },
        FactoryPreset {
            name: "Mastering Transparent",
            category: "Mastering",
            values: vec![
                ("ceiling", 9750),
                ("input_gain", 0),
                ("release", 2930),
                ("mode", 5000),
                ("mix", 10000),
                ("output_gain", 5000),
            ],
        },
        FactoryPreset {
            name: "Loud Master",
            category: "Mastering",
            values: vec![
                ("ceiling", 9920),
                ("input_gain", 2500),
                ("release", 2930),
                ("mode", 5000),
                ("mix", 10000),
                ("output_gain", 5000),
            ],
        },
        FactoryPreset {
            name: "EDM Pump",
            category: "Creative",
            values: vec![
                ("ceiling", 9170),
                ("input_gain", 3330),
                ("release", 1260),
                ("mode", 2500),
                ("mix", 10000),
                ("output_gain", 5000),
            ],
        },
        FactoryPreset {
            name: "Gentle Ceiling",
            category: "Mixing",
            values: vec![
                ("ceiling", 9170),
                ("input_gain", 830),
                ("release", 4130),
                ("mode", 0),
                ("mix", 8000),
                ("output_gain", 5000),
            ],
        },
        FactoryPreset {
            name: "Broadcast",
            category: "Mastering",
            values: vec![
                ("ceiling", 9170),
                ("input_gain", 1670),
                ("release", 4130),
                ("mode", 5000),
                ("mix", 10000),
                ("output_gain", 5000),
            ],
        },
    ];
    assert(names_of(presets@) =~= preset_names());
    assert(categories_of(presets@) =~= preset_categories());
    assert(presets@[0].entries() =~= preset_entries()[0]);
    assert(presets@[1].entries() =~= preset_entries()[1]);
    assert(presets@[2].entries() =~= preset_entries()[2]);
    assert(presets@[3].entries() =~= preset_entries()[3]);
    assert(presets@[4].entries() =~= preset_entries()[4]);
    assert(presets@[5].entries() =~= preset_entries()[5]);
    assert(entries_of(presets@) =~= preset_entries());
    presets
}

/// The name of the preset at `current`, or "Custom" when `current` is not the
/// index of a factory preset.
pub fn current_preset_name(current: usize) -> (name: &'static str)
    ensures
        name@ == preset_label(preset_names(), current as int),
{
    label_at(&factory_presets(), current)
}

/// The number of factory presets.
pub fn preset_count() -> (count: usize)
    ensures
        count == preset_names().len(),
{
    PRESET_COUNT
}

/// Advances `current` to the next preset, from the last back to the first,
/// and returns the index it held before.
pub fn next_preset(current: &mut usize) -> (previous: usize)
    requires
        *old(current) < usize::MAX,
    ensures
        previous == *old(current),
        *final(current) == spec_next_index(*old(current) as int, preset_names().len() as int),
{
    step_forward(current, PRESET_COUNT)
}

/// Moves `current` back to the previous preset, from the first to the last,
/// and returns the index it held before.
pub fn prev_preset(current: &mut usize) -> (previous: usize)
    ensures
        previous == *old(current),
        *final(current) == spec_prev_index(*old(current) as int, preset_names().len() as int),
{
    step_back(current, PRESET_COUNT)
}

/// The browser shows "Custom" exactly when the current index is not that of a
/// factory preset: no factory preset is named "Custom".
pub proof fn law_custom_only_outside_bank(current: int)
    ensures
        (preset_label(preset_names(), current) == "Custom"@) <==> !(0 <= current < preset_names().len()),
{
    reveal_strlit("Custom");
    reveal_strlit("Init");
    reveal_strlit("Mastering Transparent");
    reveal_strlit("Loud Master");
    reveal_strlit("EDM Pump");
    reveal_strlit("Gentle Ceiling");
    reveal_strlit("Broadcast");
    assert forall|i: int| 0 <= i < preset_names().len() implies preset_names()[i] != "Custom"@ by {
        if preset_names()[i].len() == "Custom"@.len() {
            assert(preset_names()[i][0] != "Custom"@[0] || preset_names()[i][1] != "Custom"@[1]);
        }
    }
}

} // verus!
