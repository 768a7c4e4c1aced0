// Factory presets of Oasis Delay and stepping through them.
use vstd::prelude::*;

use crate::presets::{
    categories_of, entries_of, label_at, names_of, preset_label, spec_next_index, spec_prev_index,
    step_back, step_forward, well_formed_bank, FactoryPreset,
};

verus! {

/// Number of factory presets.
pub const PRESET_COUNT: usize = 6;

/// The parameter ids that presets may set.
pub open spec fn param_ids() -> Seq<Seq<char>> {
    seq![
        "delay_l"@,
        "delay_r"@,
        "feedback"@,
        "ping_pong"@,
        "lp_freq"@,
        "hp_freq"@,
        "saturation"@,
        "mod_rate"@,
        "mod_depth"@,
        "mix"@,
        "output_gain"@,
    ]
}

/// The names of the factory presets, in browsing order.
pub open spec fn preset_names() -> Seq<Seq<char>> {
    seq![
        "Init"@,
        "Stereo Slapback"@,
        "Ping-Pong Eighth"@,
        "Dark Tape Echo"@,
        "Modulated Space"@,
        "Ambient Wash"@,
    ]
}

/// The categories of the factory presets, in browsing order.
pub open spec fn preset_categories() -> Seq<Seq<char>> {
    seq![
        "Default"@,
        "Creative"@,
        "Creative"@,
        "Vintage"@,
        "Creative"@,
        "Ambient"@,
    ]
}

/// The parameter values of the factory presets, in browsing order: pairs of
/// parameter id and normalized value in units of `1 / NORMALIZED_ONE`.
pub open spec fn preset_entries() -> Seq<Seq<(Seq<char>, u16)>> {
    seq![
        seq![
            ("delay_l"@, 3530u16),
            ("delay_r"@, 3530u16),
            ("feedback"@, 3680u16),
            ("ping_pong"@, 0u16),
            ("lp_freq"@, 8780u16),
            ("hp_freq"@, 4000u16),
            ("saturation"@, 0u16),
            ("mod_rate"@, 3020u16),
            ("mod_depth"@, 0u16),
            ("mix"@, 3000u16),
            ("output_gain"@, 5000u16),
        ],
        seq![
            ("delay_l"@, 1680u16),
            ("delay_r"@, 1940u16),
            ("feedback"@, 1050u16),
            ("ping_pong"@, 0u16),
            ("lp_freq"@, 8110u16),
            ("hp_freq"@, 4000u16),
            ("saturation"@, 0u16),
            ("mod_rate"@, 3020u16),
            ("mod_depth"@, 0u16),
            ("mix"@, 3500u16),
            ("output_gain"@, 5000u16),
        ],
        seq![
            ("delay_l"@, 3530u16),
            ("delay_r"@, 3530u16),
            ("feedback"@, 4210u16),
            ("ping_pong"@, 10000u16),
            ("lp_freq"@, 8110u16),
            ("hp_freq"@, 5010u16),
            ("saturation"@, 0u16),
            ("mod_rate"@, 3020u16),
            ("mod_depth"@, 0u16),
            ("mix"@, 3000u16),
            ("output_gain"@, 5000u16),
        ],
        seq![
            ("delay_l"@, 3980u16),
            ("delay_r"@, 3980u16),
            ("feedback"@, 4740u16),
            ("ping_pong"@, 0u16),
            ("lp_freq"@, 6880u16),
            ("hp_freq"@, 5010u16),
            ("saturation"@, 3500u16),
            ("mod_rate"@, 3930u16),
            ("mod_depth"@, 1500u16),
            ("mix"@, 3000u16),
            ("output_gain"@, 5000u16),
        ],
        seq![
            ("delay_l"@, 2810u16),
            ("delay_r"@, 3160u16),
            ("feedback"@, 3680u16),
            ("ping_pong"@, 0u16),
            ("lp_freq"@, 8110u16),
            ("hp_freq"@, 4000u16),
            ("saturation"@, 1000u16),
            ("mod_rate"@, 5600u16),
            ("mod_depth"@, 4000u16),
            ("mix"@, 3500u16),
            ("output_gain"@, 5000u16),
        ],
        seq![
            ("delay_l"@, 5300u16),
            ("delay_r"@, 5900u16),
            ("feedback"@, 6320u16),
            ("ping_pong"@, 10000u16),
            ("lp_freq"@, 7350u16),
            ("hp_freq"@, 5010u16),
            ("saturation"@, 1500u16),
            ("mod_rate"@, 2260u16),
            ("mod_depth"@, 2500u16),
            ("mix"@, 5000u16),
            ("output_gain"@, 5000u16),
        ],
    ]
}

/// The factory presets, each value normalized to `0 ..= NORMALIZED_ONE`.
pub fn factory_presets() -> (presets: Vec<FactoryPreset>)
    ensures
        presets.len() == PRESET_COUNT,
        names_of(presets@) == preset_names(),
        categories_of(presets@) == preset_categories(),
        entries_of(presets@) == preset_entries(),
        well_formed_bank(presets@, param_ids()),
{
    let presets = vec![
        FactoryPreset {
            name: "Init",
            category: "Default",
            values: vec![
                ("delay_l", 3530),
                ("delay_r", 3530),
                ("feedback", 3680),
                ("ping_pong", 0),
                ("lp_freq", 8780),
                ("hp_freq", 4000),
                ("saturation", 0),
                ("mod_rate", 3020),
                ("mod_depth", 0),
                ("mix", 3000),
                ("output_gain", 5000),
            ],
        },
        FactoryPreset {
            name: "Stereo Slapback",
            category: "Creative",
            values: vec![
                ("delay_l", 1680),
                ("delay_r", 1940),
                ("feedback", 1050),
                ("ping_pong", 0),
                ("lp_freq", 8110),
                ("hp_freq", 4000),
                ("saturation", 0),
                ("mod_rate", 3020),
                ("mod_depth", 0),
                ("mix", 3500),
                ("output_gain", 5000),
            ],
        },
        FactoryPreset {
            name: "Ping-Pong Eighth",
            category: "Creative",
            values: vec![
                ("delay_l", 3530),
                ("delay_r", 3530),
                ("feedback", 4210),
                ("ping_pong", 10000),
                ("lp_freq", 8110),
                ("hp_freq", 5010),
                ("saturation", 0),
                ("mod_rate", 3020),
                ("mod_depth", 0),
                ("mix", 3000),
                ("output_gain", 5000),
            ],
        },
        FactoryPreset {
            name: "Dark Tape Echo",
            category: "Vintage",
            values: vec![
                ("delay_l", 3980),
                ("delay_r", 3980),
                ("feedback", 4740),
                ("ping_pong", 0),
                ("lp_freq", 6880),
                ("hp_freq", 5010),
                ("saturation", 3500),
                ("mod_rate", 3930),
                ("mod_depth", 1500),
                ("mix", 3000),
                ("output_gain", 5000),
            ],
        },
        FactoryPreset {
            name: "Modulated Space",
            category: "Creative",
            values: vec![
                ("delay_l", 2810),
                ("delay_r", 3160),
                ("feedback", 3680),
                ("ping_pong", 0),
                ("lp_freq", 8110),
                ("hp_freq", 4000),
                ("saturation", 1000),
                ("mod_rate", 5600),
                ("mod_depth", 4000),
                ("mix", 3500),
                ("output_gain", 5000),
            ],
        },
        FactoryPreset {
            name: "Ambient Wash",
            category: "Ambient",
            values: vec![
                ("delay_l", 5300),
                ("delay_r", 5900),
                ("feedback", 6320),
                ("ping_pong", 10000),
                ("lp_freq", 7350),
                ("hp_freq", 5010),
                ("saturation", 1500),
                ("mod_rate", 2260),
                ("mod_depth", 2500),
                ("mix", 5000),
                ("output_gain", 5000),
            ],
        },
    ];
    assert(names_of(presets@) =~= preset_names());
    assert(categories_of(presets@) =~= preset_categories());
    assert(presets@[0].entries() =~= preset_entries()[0]);
    assert(presets@[1].entries() =~= preset_entries()[1]);
    assert(presets@[2].entries() =~= preset_entries()[2]);
    assert(presets@[3].entries() =~= preset_entries()[3]);
    assert(presets@[4].entries() =~= preset_entries()[4]);
    assert(presets@[5].entries() =~= preset_entries()[5]);
    assert(entries_of(presets@) =~= preset_entries());
    presets
}

/// The name of the preset at `current`, or "Custom" when `current` is not the
/// index of a factory preset.
pub fn current_preset_name(current: usize) -> (name: &'static str)
    ensures
        name@ == preset_label(preset_names(), current as int),
{
    label_at(&factory_presets(), current)
}

/// The number of factory presets.
pub fn preset_count() -> (count: usize)
    ensures
        count == preset_names().len(),
{
    PRESET_COUNT
}

/// Advances `current` to the next preset, from the last back to the first,
/// and returns the index it held before.
pub fn next_preset(current: &mut usize) -> (previous: usize)
    requires
        *old(current) < usize::MAX,
    ensures
        previous == *old(current),
        *final(current) == spec_next_index(*old(current) as int, preset_names().len() as int),
{
    step_forward(current, PRESET_COUNT)
}

/// Moves `current` back to the previous preset, from the first to the last,
/// and returns the index it held before.
pub fn prev_preset(current: &mut usize) -> (previous: usize)
    ensures
        previous == *old(current),
        *final(current) == spec_prev_index(*old(current) as int, preset_names().len() as int),
{
    step_back(current, PRESET_COUNT)
}

/// The browser shows "Custom" exactly when the current index is not that of a
/// factory preset: no factory preset is named "Custom".
pub proof fn law_custom_only_outside_bank(current: int)
    ensures
        (preset_label(preset_names(), current) == "Custom"@) <==> !(0 <= current < preset_names().len()),
{
    reveal_strlit("Custom");
    reveal_strlit("Init");
    reveal_strlit("Stereo Slapback");
    reveal_strlit("Ping-Pong Eighth");
    reveal_strlit("Dark Tape Echo");
    reveal_strlit("Modulated Space");
    reveal_strlit("Ambient Wash");
    assert forall|i: int| 0 <= i < preset_names().len() implies preset_names()[i] != "Custom"@ by {
        if preset_names()[i].len() == "Custom"@.len() {
            assert(preset_names()[i][0] != "Custom"@[0] || preset_names()[i][1] != "Custom"@[1]);
        }
    }
}

} // verus!
