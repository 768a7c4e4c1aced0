// Factory presets of Oasis Synth and stepping through them.
use vstd::prelude::*;

use crate::presets::{
    categories_of, entries_of, label_at, names_of, preset_label, spec_next_index, spec_prev_index,
    step_back, step_forward, well_formed_bank, FactoryPreset,
};

verus! {

/// Number of factory presets.
pub const PRESET_COUNT: usize = 7;

/// The parameter ids that presets may set.
pub open spec fn param_ids() -> Seq<Seq<char>> {
    seq![
        "osc1_wave"@,
        "osc1_level"@,
        "osc1_detune"@,
        "osc2_wave"@,
        "osc2_level"@,
        "osc2_detune"@,
        "filter_cutoff"@,
        "filter_reso"@,
        "env_attack"@,
        "env_decay"@,
        "env_sustain"@,
        "env_release"@,
        "master_gain"@,
    ]
}

/// The names of the factory presets, in browsing order.
pub open spec fn preset_names() -> Seq<Seq<char>> {
    seq![
        "Init"@,
        "Classic Saw Lead"@,
        "Warm Pad"@,
        "Pluck Bass"@,
        "Sub Bass"@,
        "Bright Arp"@,
        "Thick Unison"@,
    ]
}

/// The categories of the factory presets, in browsing order.
pub open spec fn preset_categories() -> Seq<Seq<char>> {
    seq![
        "Default"@,
        "Lead"@,
        "Pad"@,
        "Bass"@,
        "Bass"@,
        "Lead"@,
        "Lead"@,
    ]
}

/// The parameter values of the factory presets, in browsing order: pairs of
/// parameter id and normalized value in units of `1 / NORMALIZED_ONE`.
pub open spec fn preset_entries() -> Seq<Seq<(Seq<char>, u16)>> {
    seq![
        seq![
            ("osc1_level"@, 10000u16),
            ("osc1_detune"@, 0u16),
            ("osc2_level"@, 0u16),
            ("osc2_detune"@, 0u16),
            ("filter_cutoff"@, 7500u16),
            ("filter_reso"@, 0u16),
            ("env_attack"@, 330u16),
            ("env_decay"@, 1410u16),
            ("env_sustain"@, 7000u16),
            ("env_release"@, 1760u16),
            ("master_gain"@, 5000u16),
        ],
        seq![
            ("osc1_level"@, 10000u16),
            ("osc1_detune"@, 0u16),
            ("osc2_level"@, 7000u16),
            ("osc2_detune"@, 700u16),
            ("filter_cutoff"@, 5500u16),
            ("filter_reso"@, 3000u16),
            ("env_attack"@, 140u16),
            ("env_decay"@, 1410u16),
            ("env_sustain"@, 6000u16),
            ("env_release"@, 1410u16),
            ("master_gain"@, 5000u16),
        ],
        seq![
            ("osc1_level"@, 8000u16),
            ("osc1_detune"@, 0u16),
            ("osc2_level"@, 4000u16),
            ("osc2_detune"@, 500u16),
            ("filter_cutoff"@, 4000u16),
            ("filter_reso"@, 1500u16),
            ("env_attack"@, 4000u16),
            ("env_decay"@, 3000u16),
            ("env_sustain"@, 8000u16),
            ("env_release"@, 5000u16),
            ("master_gain"@, 5000u16),
        ],
        seq![
            ("osc1_level"@, 10000u16),
            ("osc1_detune"@, 0u16),
            ("osc2_level"@, 5000u16),
            ("osc2_detune"@, 0u16),
            ("filter_cutoff"@, 3500u16),
            ("filter_reso"@, 4000u16),
            ("env_attack"@, 50u16),
            ("env_decay"@, 1000u16),
            ("env_sustain"@, 0u16),
            ("env_release"@, 700u16),
            ("master_gain"@, 5000u16),
        ],
        seq![
            ("osc1_level"@, 10000u16),
            ("osc1_detune"@, 0u16),
            ("osc2_level"@, 0u16),
            ("osc2_detune"@, 0u16),
            ("filter_cutoff"@, 2500u16),
            ("filter_reso"@, 0u16),
            ("env_attack"@, 140u16),
            ("env_decay"@, 700u16),
            ("env_sustain"@, 9000u16),
            ("env_release"@, 700u16),
            ("master_gain"@, 5000u16),
        ],
        seq![
            ("osc1_level"@, 10000u16),
            ("osc1_detune"@, 0u16),
            ("osc2_level"@, 3000u16),
            ("osc2_detune"@, 300u16),
            ("filter_cutoff"@, 6500u16),
            ("filter_reso"@, 2000u16),
            ("env_attack"@, 50u16),
            ("env_decay"@, 1200u16),
            ("env_sustain"@, 1500u16),
            ("env_release"@, 1000u16),
            ("master_gain"@, 5000u16),
        ],
        seq![
            ("osc1_level"@, 10000u16),
            ("osc1_detune"@, 0u16),
            ("osc2_level"@, 10000u16),
            ("osc2_detune"@, 1500u16),
            ("filter_cutoff"@, 6000u16),
            ("filter_reso"@, 1000u16),
            ("env_attack"@, 140u16),
            ("env_decay"@, 2000u16),
            ("env_sustain"@, 7000u16),
            ("env_release"@, 2000u16),
            ("master_gain"@, 4580u16),
        ],
    ]
}

/// The factory presets, each value normalized to `0 ..= NORMALIZED_ONE`.
pub fn factory_presets() -> (presets: Vec<FactoryPreset>)
    ensures
        presets.len() == PRESET_COUNT,
        names_of(presets@) == preset_names(),
        categories_of(presets@) == preset_categories(),
        entries_of(presets@) == preset_entries(),
        well_formed_bank(presets@, param_ids()),
{
    let presets = vec![
        FactoryPreset {
            name: "Init",
            category: "Default",
            values: vec![
                ("osc1_level", 10000),
                ("osc1_detune", 0),
                ("osc2_level", 0),
                ("osc2_detune", 0),
                ("filter_cutoff", 7500),
                ("filter_reso", 0),
                ("env_attack", 330),
                ("env_decay", 1410),
                ("env_sustain", 7000),
                ("env_release", 1760),
                ("master_gain", 5000),
            ],
        },
        FactoryPreset {
            name: "Classic Saw Lead",
            category: "Lead",
            values: vec![
                ("osc1_level", 10000),
                ("osc1_detune", 0),
                ("osc2_level", 7000),
                ("osc2_detune", 700),
                ("filter_cutoff", 5500),
                ("filter_reso", 3000),
                ("env_attack", 140),
                ("env_decay", 1410),
                ("env_sustain", 6000),
                ("env_release", 1410),
                ("master_gain", 5000),
            ],
        },
        FactoryPreset {
            name: "Warm Pad",
            category: "Pad",
            values: vec![
                ("osc1_level", 8000),
                ("osc1_detune", 0),
                ("osc2_level", 4000),
                ("osc2_detune", 500),
                ("filter_cutoff", 4000),
                ("filter_reso", 1500),
                ("env_attack", 4000),
                ("env_decay", 3000),
                ("env_sustain", 8000),
                ("env_release", 5000),
                ("master_gain", 5000),
            ],
        },
        FactoryPreset {
            name: "Pluck Bass",
            category: "Bass",
            values: vec![
                ("osc1_level", 10000),
                ("osc1_detune", 0),
                ("osc2_level", 5000),
                ("osc2_detune", 0),
                ("filter_cutoff", 3500),
                ("filter_reso", 4000),
                ("env_attack", 50),
                ("env_decay", 1000),
                ("env_sustain", 0),
                ("env_release", 700),
                ("master_gain", 5000),
            ],
        },
        FactoryPreset {
            name: "Sub Bass",
            category: "Bass",
            values: vec![
                ("osc1_level", 10000),
                ("osc1_detune", 0),
                ("osc2_level", 0),
                ("osc2_detune", 0),
                ("filter_cutoff", 2500),
                ("filter_reso", 0),
                ("env_attack", 140),
                ("env_decay", 700),
                ("env_sustain", 9000),
                ("env_release", 700),
                ("master_gain", 5000),
            ],
        },
        FactoryPreset {
            name: "Bright Arp",
            category: "Lead",
            values: vec![
                ("osc1_level", 10000),
                ("osc1_detune", 0),
                ("osc2_level", 3000),
                ("osc2_detune", 300),
                ("filter_cutoff", 6500),
                ("filter_reso", 2000),
                ("env_attack", 50),
                ("env_decay", 1200),
                ("env_sustain", 1500),
                ("env_release", 1000),
                ("master_gain", 5000),
            ],
        },
        FactoryPreset {
            name: "Thick Unison",
            category: "Lead",
            values: vec![
                ("osc1_level", 10000),
                ("osc1_detune", 0),
                ("osc2_level", 10000),
                ("osc2_detune", 1500),
                ("filter_cutoff", 6000),
                ("filter_reso", 1000),
                ("env_attack", 140),
                ("env_decay", 2000),
                ("env_sustain", 7000),
                ("env_release", 2000),
                ("master_gain", 4580),
            ],
        },
    ];
    assert(names_of(presets@) =~= preset_names());
    assert(categories_of(presets@) =~= preset_categories());
    assert(presets@[0].entries() =~= preset_entries()[0]);
    assert(presets@[1].entries() =~= preset_entries()[1]);
    assert(presets@[2].entries() =~= preset_entries()[2]);
    assert(presets@[3].entries() =~= preset_entries()[3]);
    assert(presets@[4].entries() =~= preset_entries()[4]);
    assert(presets@[5].entries() =~= preset_entries()[5]);
    assert(presets@[6].entries() =~= preset_entries()[6]);
    assert(entries_of(presets@) =~= preset_entries());
    presets
}

/// The name of the preset at `current`, or "Custom" when `current` is not the
/// index of a factory preset.
pub fn current_preset_name(current: usize) -> (name: &'static str)
    ensures
        name@ == preset_label(preset_names(), current as int),
{
    label_at(&factory_presets(), current)
}

/// The number of factory presets.
pub fn preset_count() -> (count: usize)
    ensures
        count == preset_names().len(),
{
    PRESET_COUNT
}

/// Advances `current` to the next preset, from the last back to the first,
/// and returns the index it held before.
pub fn next_preset(current: &mut usize) -> (previous: usize)
    requires
        *old(current) < usize::MAX,
    ensures
        previous == *old(current),
        *final(current) == spec_next_index(*old(current) as int, preset_names().len() as int),
{
    step_forward(current, PRESET_COUNT)
}

/// Moves `current` back to the previous preset, from the first to the last,
/// and returns the index it held before.
pub fn prev_preset(current: &mut usize) -> (previous: usize)
    ensures
        previous == *old(current),
        *final(current) == spec_prev_index(*old(current) as int, preset_names().len() as int),
{
    step_back(current, PRESET_COUNT)
}

/// The browser shows "Custom" exactly when the current index is not that of a
/// factory preset: no factory preset is named "Custom".
pub proof fn law_custom_only_outside_bank(current: int)
    ensures
        (preset_label(preset_names(), current) == "Custom"@) <==> !(0 <= current < preset_names().len()),
{
    reveal_strlit("Custom");
    reveal_strlit("Init");
    reveal_strlit("Classic Saw Lead");
    reveal_strlit("Warm Pad");
    reveal_strlit("Pluck Bass");
    reveal_strlit("Sub Bass");
    reveal_strlit("Bright Arp");
    reveal_strlit("Thick Unison");
    assert forall|i: int| 0 <= i < preset_names().len() implies preset_names()[i] != "Custom"@ by {
        if preset_names()[i].len() == "Custom"@.len() {
            assert(preset_names()[i][0] != "Custom"@[0] || preset_names()[i][1] != "Custom"@[1]);
        }
    }
}

} // verus!
