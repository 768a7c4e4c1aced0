// Factory presets of Oasis DeEss and stepping through them.
use vstd::prelude::*;

use crate::presets::{
    categories_of, entries_of, label_at, names_of, preset_label, spec_next_index, spec_prev_index,
    step_back, step_forward, well_formed_bank, FactoryPreset,
};

verus! {

/// Number of factory presets.
pub const PRESET_COUNT: usize = 6;

/// The parameter ids that presets may set.
pub open spec fn param_ids() -> Seq<Seq<char>> {
    seq![
        "frequency"@,
        "bandwidth"@,
        "threshold"@,
        "range"@,
        "mode"@,
        "listen"@,
        "mix"@,
        "output_gain"@,
    ]
}

/// The names of the factory presets, in browsing order.
pub open spec fn preset_names() -> Seq<Seq<char>> {
    seq![
        "Init"@,
        "Vocal De-Ess"@,
        "Harsh Highs"@,
        "Gentle Sibilance"@,
        "Cymbal Tamer"@,
        "Broadcast Voice"@,
    ]
}

/// The categories of the factory presets, in browsing order.
pub open spec fn preset_categories() -> Seq<Seq<char>> {
    seq![
        "Default"@,
        "Vocals"@,
        "Mixing"@,
        "Vocals"@,
        "Drums"@,
        "Vocals"@,
    ]
}

/// The parameter values of the factory presets, in browsing order: pairs of
/// parameter id and normalized value in units of `1 / NORMALIZED_ONE`.
pub open spec fn preset_entries() -> Seq<Seq<(Seq<char>, u16)>> {
    seq![
        seq![
            ("frequency"@, 3830u16),
            ("bandwidth"@, 2000u16),
            ("threshold"@, 6670u16),
            ("range"@, 5000u16),
            ("mode"@, 0u16),
            ("listen"@, 0u16),
            ("mix"@, 10000u16),
            ("output_gain"@, 5000u16),
        ],
        seq![
            ("frequency"@, 4300u16),
            ("bandwidth"@, 2670u16),
            ("threshold"@, 5830u16),
            ("range"@, 3330u16),
            ("mode"@, 0u16),
            ("listen"@, 0u16),
            ("mix"@, 10000u16),
            ("output_gain"@, 5000u16),
        ],
        seq![
            ("frequency"@, 5360u16),
            ("bandwidth"@, 1330u16),
            ("threshold"@, 5000u16),
            ("range"@, 4170u16),
            ("mode"@, 10000u16),
            ("listen"@, 0u16),
            ("mix"@, 10000u16),
            ("output_gain"@, 5000u16),
        ],
        seq![
            ("frequency"@, 3830u16),
            ("bandwidth"@, 3330u16),
            ("threshold"@, 5000u16),
            ("range"@, 2500u16),
            ("mode"@, 0u16),
            ("listen"@, 0u16),
            ("mix"@, 10000u16),
            ("output_gain"@, 5000u16),
        ],
        seq![
            ("frequency"@, 6070u16),
            ("bandwidth"@, 1330u16),
            ("threshold"@, 6670u16),
            ("range"@, 3750u16),
            ("mode"@, 0u16),
            ("listen"@, 0u16),
            ("mix"@, 8500u16),
            ("output_gain"@, 5000u16),
        ],
        seq![
            ("frequency"@, 3230u16),
            ("bandwidth"@, 2000u16),
            ("threshold"@, 7500u16),
            ("range"@, 5000u16),
            ("mode"@, 0u16),
            ("listen"@, 0u16),
            ("mix"@, 10000u16),
            ("output_gain"@, 5000u16),
        ],
    ]
}

/// The factory presets, each value normalized to `0 ..= NORMALIZED_ONE`.
pub fn factory_presets() -> (presets: Vec<FactoryPreset>)
    ensures
        presets.len() == PRESET_COUNT,
        names_of(presets@) == preset_names(),
        categories_of(presets@) == preset_categories(),
        entries_of(presets@) == preset_entries(),
        well_formed_bank(presets@, param_ids()),
{
    let presets = vec![
        FactoryPreset {
            name: "Init",
            category: "Default",
            values: vec![
                ("frequency", 3830),
                ("bandwidth", 2000),
                ("threshold", 6670),
                ("range", 5000),
                ("mode", 0),
                ("listen", 0),
                ("mix", 10000),
                ("output_gain", 5000),
            ],
        },
        FactoryPreset {
            name: "Vocal De-Ess",
            category: "Vocals",
            values: vec![
                ("frequency", 4300),
                ("bandwidth", 2670),
                ("threshold", 5830),
                ("range", 3330),
                ("mode", 0),
                ("listen", 0),
                ("mix", 10000),
                ("output_gain", 5000),
            ],
        },
        FactoryPreset {
            name: "Harsh Highs",
            category: "Mixing",
            values: vec![
                ("frequency", 5360),
                ("bandwidth", 1330),
                ("threshold", 5000),
                ("range", 4170),
                ("mode", 10000),
                ("listen", 0),
                ("mix", 10000),
                ("output_gain", 5000),
            ],
        },
        FactoryPreset {
            name: "Gentle Sibilance",
            category: "Vocals",
            values: vec![
                ("frequency", 3830),
                ("bandwidth", 3330),
                ("threshold", 5000),
                ("range", 2500),
                ("mode", 0),
                ("listen", 0),
                ("mix", 10000),
                ("output_gain", 5000),
            ],
        },
        FactoryPreset {
            name: "Cymbal Tamer",
            category: "Drums",
            values: vec![
                ("frequency", 6070),
                ("bandwidth", 1330),
                ("threshold", 6670),
                ("range", 3750),
                ("mode", 0),
                ("listen", 0),
                ("mix", 8500),
                ("output_gain", 5000),
            ],
        },
        FactoryPreset {
            name: "Broadcast Voice",
            category: "Vocals",
            values: vec![
                ("frequency", 3230),
                ("bandwidth", 2000),
                ("threshold", 7500),
                ("range", 5000),
                ("mode", 0),
                ("listen", 0),
                ("mix", 10000),
                ("output_gain", 5000),
            ],
        },
    ];
    assert(names_of(presets@) =~= preset_names());
    assert(categories_of(presets@) =~= preset_categories());
    assert(presets@[0].entries() =~= preset_entries()[0]);
    assert(presets@[1].entries() =~= preset_entries()[1]);
    assert(presets@[2].entries() =~= preset_entries()[2]);
    assert(presets@[3].entries() =~= preset_entries()[3]);
    assert(presets@[4].entries() =~= preset_entries()[4]);
    assert(presets@[5].entries() =~= preset_entries()[5]);
    assert(entries_of(presets@) =~= preset_entries());
    presets
}

/// The name of the preset at `current`, or "Custom" when `current` is not the
/// index of a factory preset.
pub fn current_preset_name(current: usize) -> (name: &'static str)
    ensures
        name@ == preset_label(preset_names(), current as int),
{
    label_at(&factory_presets(), current)
}

/// The number of factory presets.
pub fn preset_count() -> (count: usize)
    ensures
        count == preset_names().len(),
{
    PRESET_COUNT
}

/// Advances `current` to the next preset, from the last back to the first,
/// and returns the index it held before.
pub fn next_preset(current: &mut usize) -> (previous: usize)
    requires
        *old(current) < usize::MAX,
    ensures
        previous == *old(current),
        *final(current) == spec_next_index(*old(current) as int, preset_names().len() as int),
{
    step_forward(current, PRESET_COUNT)
}

/// Moves `current` back to the previous preset, from the first to the last,
/// and returns the index it held before.
pub fn prev_preset(current: &mut usize) -> (previous: usize)
    ensures
        previous == *old(current),
        *final(current) == spec_prev_index(*old(current) as int, preset_names().len() as int),
{
    step_back(current, PRESET_COUNT)
}

/// The browser shows "Custom" exactly when the current index is not that of a
/// factory preset: no factory preset is named "Custom".
pub proof fn law_custom_only_outside_bank(current: int)
    ensures
        (preset_label(preset_names(), current) == "Custom"@) <==> !(0 <= current < preset_names().len()),
{
    reveal_strlit("Custom");
    reveal_strlit("Init");
    reveal_strlit("Vocal De-Ess");
    reveal_strlit("Harsh Highs");
    reveal_strlit("Gentle Sibilance");
    reveal_strlit("Cymbal Tamer");
    reveal_strlit("Broadcast Voice");
    assert forall|i: int| 0 <= i < preset_names().len() implies preset_names()[i] != "Custom"@ by {
        if preset_names()[i].len() == "Custom"@.len() {
            assert(preset_names()[i][0] != "Custom"@[0] || preset_names()[i][1] != "Custom"@[1]);
        }
    }
}

} // verus!
