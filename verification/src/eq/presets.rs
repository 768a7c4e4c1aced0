// Factory presets of Oasis EQ and stepping through them.
use vstd::prelude::*;

use crate::presets::{
    categories_of, entries_of, label_at, names_of, preset_label, spec_next_index, spec_prev_index,
    step_back, step_forward, well_formed_bank, FactoryPreset,
};

verus! {

/// Number of factory presets.
pub const PRESET_COUNT: usize = 7;

/// The band-qualified parameter ids of the editor (`b<band>_<field>`) and `output_gain` that presets may set.
pub open spec fn param_ids() -> Seq<Seq<char>> {
    seq![
        "output_gain"@,
        "b1_freq"@,
        "b1_gain"@,
        "b1_q"@,
        "b1_type"@,
        "b1_on"@,
        "b2_freq"@,
        "b2_gain"@,
        "b2_q"@,
        "b2_type"@,
        "b2_on"@,
        "b3_freq"@,
        "b3_gain"@,
        "b3_q"@,
        "b3_type"@,
        "b3_on"@,
        "b4_freq"@,
        "b4_gain"@,
        "b4_q"@,
        "b4_type"@,
        "b4_on"@,
        "b5_freq"@,
        "b5_gain"@,
        "b5_q"@,
        "b5_type"@,
        "b5_on"@,
        "b6_freq"@,
        "b6_gain"@,
        "b6_q"@,
        "b6_type"@,
        "b6_on"@,
        "b7_freq"@,
        "b7_gain"@,
        "b7_q"@,
        "b7_type"@,
        "b7_on"@,
        "b8_freq"@,
        "b8_gain"@,
        "b8_q"@,
        "b8_type"@,
        "b8_on"@,
    ]
}

/// The names of the factory presets, in browsing order.
pub open spec fn preset_names() -> Seq<Seq<char>> {
    seq![
        "Init"@,
        "Vocal Presence"@,
        "Bass Scoop"@,
        "High Shelf Air"@,
        "Low Cut 80Hz"@,
        "Mid Dip"@,
        "Telephone"@,
    ]
}

/// The categories of the factory presets, in browsing order.
pub open spec fn preset_categories() -> Seq<Seq<char>> {
    seq![
        "Default"@,
        "Vocals"@,
        "Mixing"@,
        "Mixing"@,
        "Utility"@,
        "Mixing"@,
        "Creative"@,
    ]
}

/// The parameter values of the factory presets, in browsing order: pairs of
/// parameter id and normalized value in units of `1 / NORMALIZED_ONE`.
pub open spec fn preset_entries() -> Seq<Seq<(Seq<char>, u16)>> {
    seq![
        seq![
            ("b1_freq"@, 1500u16),
            ("b1_gain"@, 5000u16),
            ("b1_q"@, 2240u16),
            ("b1_type"@, 5000u16),
            ("b1_on"@, 10000u16),
            ("b2_freq"@, 2340u16),
            ("b2_gain"@, 5000u16),
            ("b2_q"@, 2240u16),
            ("b2_type"@, 0u16),
            ("b2_on"@, 10000u16),
            ("b3_freq"@, 3280u16),
            ("b3_gain"@, 5000u16),
            ("b3_q"@, 2240u16),
            ("b3_type"@, 0u16),
            ("b3_on"@, 10000u16),
            ("b4_freq"@, 4450u16),
            ("b4_gain"@, 5000u16),
            ("b4_q"@, 2240u16),
            ("b4_type"@, 0u16),
            ("b4_on"@, 10000u16),
            ("b5_freq"@, 5940u16),
            ("b5_gain"@, 5000u16),
            ("b5_q"@, 2240u16),
            ("b5_type"@, 0u16),
            ("b5_on"@, 10000u16),
            ("b6_freq"@, 7070u16),
            ("b6_gain"@, 5000u16),
            ("b6_q"@, 2240u16),
            ("b6_type"@, 0u16),
            ("b6_on"@, 10000u16),
            ("b7_freq"@, 8410u16),
            ("b7_gain"@, 5000u16),
            ("b7_q"@, 2240u16),
            ("b7_type"@, 0u16),
            ("b7_on"@, 10000u16),
            ("b8_freq"@, 9460u16),
            ("b8_gain"@, 5000u16),
            ("b8_q"@, 2240u16),
            ("b8_type"@, 6670u16),
            ("b8_on"@, 10000u16),
            ("output_gain"@, 5000u16),
        ],
        seq![
            ("b1_freq"@, 2340u16),
            ("b1_gain"@, 5000u16),
            ("b1_q"@, 1840u16),
            ("b1_type"@, 5000u16),
            ("b1_on"@, 10000u16),
            ("b2_freq"@, 3280u16),
            ("b2_gain"@, 4440u16),
            ("b2_q"@, 2240u16),
            ("b2_type"@, 0u16),
            ("b2_on"@, 10000u16),
            ("b3_freq"@, 4450u16),
            ("b3_gain"@, 5000u16),
            ("b3_q"@, 2240u16),
            ("b3_type"@, 0u16),
            ("b3_on"@, 10000u16),
            ("b4_freq"@, 5940u16),
            ("b4_gain"@, 5830u16),
            ("b4_q"@, 2240u16),
            ("b4_type"@, 0u16),
            ("b4_on"@, 10000u16),
            ("b5_freq"@, 6680u16),
            ("b5_gain"@, 5560u16),
            ("b5_q"@, 2800u16),
            ("b5_type"@, 0u16),
            ("b5_on"@, 10000u16),
            ("b6_freq"@, 7070u16),
            ("b6_gain"@, 5000u16),
            ("b6_q"@, 2240u16),
            ("b6_type"@, 0u16),
            ("b6_on"@, 10000u16),
            ("b7_freq"@, 8410u16),
            ("b7_gain"@, 5560u16),
            ("b7_q"@, 1840u16),
            ("b7_type"@, 3330u16),
            ("b7_on"@, 10000u16),
            ("b8_freq"@, 9460u16),
            ("b8_gain"@, 5000u16),
            ("b8_q"@, 1840u16),
            ("b8_type"@, 6670u16),
            ("b8_on"@, 10000u16),
            ("output_gain"@, 5000u16),
        ],
        seq![
            ("b1_freq"@, 1780u16),
            ("b1_gain"@, 5560u16),
            ("b1_q"@, 1840u16),
            ("b1_type"@, 1670u16),
            ("b1_on"@, 10000u16),
            ("b2_freq"@, 2340u16),
            ("b2_gain"@, 5000u16),
            ("b2_q"@, 2240u16),
            ("b2_type"@, 0u16),
            ("b2_on"@, 10000u16),
            ("b3_freq"@, 3280u16),
            ("b3_gain"@, 3890u16),
            ("b3_q"@, 2240u16),
            ("b3_type"@, 0u16),
            ("b3_on"@, 10000u16),
            ("b4_freq"@, 3940u16),
            ("b4_gain"@, 4170u16),
            ("b4_q"@, 2800u16),
            ("b4_type"@, 0u16),
            ("b4_on"@, 10000u16),
            ("b5_freq"@, 5940u16),
            ("b5_gain"@, 5000u16),
            ("b5_q"@, 2240u16),
            ("b5_type"@, 0u16),
            ("b5_on"@, 10000u16),
            ("b6_freq"@, 7070u16),
            ("b6_gain"@, 5560u16),
            ("b6_q"@, 2240u16),
            ("b6_type"@, 0u16),
            ("b6_on"@, 10000u16),
            ("b7_freq"@, 8410u16),
            ("b7_gain"@, 5000u16),
            ("b7_q"@, 2240u16),
            ("b7_type"@, 0u16),
            ("b7_on"@, 10000u16),
            ("b8_freq"@, 9460u16),
            ("b8_gain"@, 5000u16),
            ("b8_q"@, 1840u16),
            ("b8_type"@, 6670u16),
            ("b8_on"@, 10000u16),
            ("output_gain"@, 5000u16),
        ],
        seq![
            ("b1_freq"@, 1500u16),
            ("b1_gain"@, 5000u16),
            ("b1_q"@, 2240u16),
            ("b1_type"@, 5000u16),
            ("b1_on"@, 10000u16),
            ("b2_freq"@, 2340u16),
            ("b2_gain"@, 5000u16),
            ("b2_q"@, 2240u16),
            ("b2_type"@, 0u16),
            ("b2_on"@, 0u16),
            ("b3_freq"@, 3280u16),
            ("b3_gain"@, 5000u16),
            ("b3_q"@, 2240u16),
            ("b3_type"@, 0u16),
            ("b3_on"@, 0u16),
            ("b4_freq"@, 4450u16),
            ("b4_gain"@, 5000u16),
            ("b4_q"@, 2240u16),
            ("b4_type"@, 0u16),
            ("b4_on"@, 0u16),
            ("b5_freq"@, 5940u16),
            ("b5_gain"@, 5000u16),
            ("b5_q"@, 2240u16),
            ("b5_type"@, 0u16),
            ("b5_on"@, 0u16),
            ("b6_freq"@, 7070u16),
            ("b6_gain"@, 5000u16),
            ("b6_q"@, 2240u16),
            ("b6_type"@, 0u16),
            ("b6_on"@, 0u16),
            ("b7_freq"@, 7950u16),
            ("b7_gain"@, 6110u16),
            ("b7_q"@, 1840u16),
            ("b7_type"@, 3330u16),
            ("b7_on"@, 10000u16),
            ("b8_freq"@, 9460u16),
            ("b8_gain"@, 5000u16),
            ("b8_q"@, 1840u16),
            ("b8_type"@, 6670u16),
            ("b8_on"@, 0u16),
            ("output_gain"@, 5000u16),
        ],
        seq![
            ("b1_freq"@, 2340u16),
            ("b1_gain"@, 5000u16),
            ("b1_q"@, 1840u16),
            ("b1_type"@, 5000u16),
            ("b1_on"@, 10000u16),
            ("b2_freq"@, 2340u16),
            ("b2_gain"@, 5000u16),
            ("b2_q"@, 2240u16),
            ("b2_type"@, 0u16),
            ("b2_on"@, 0u16),
            ("b3_freq"@, 3280u16),
            ("b3_gain"@, 5000u16),
            ("b3_q"@, 2240u16),
            ("b3_type"@, 0u16),
            ("b3_on"@, 0u16),
            ("b4_freq"@, 4450u16),
            ("b4_gain"@, 5000u16),
            ("b4_q"@, 2240u16),
            ("b4_type"@, 0u16),
            ("b4_on"@, 0u16),
            ("b5_freq"@, 5940u16),
            ("b5_gain"@, 5000u16),
            ("b5_q"@, 2240u16),
            ("b5_type"@, 0u16),
            ("b5_on"@, 0u16),
            ("b6_freq"@, 7070u16),
            ("b6_gain"@, 5000u16),
            ("b6_q"@, 2240u16),
            ("b6_type"@, 0u16),
            ("b6_on"@, 0u16),
            ("b7_freq"@, 8410u16),
            ("b7_gain"@, 5000u16),
            ("b7_q"@, 2240u16),
            ("b7_type"@, 0u16),
            ("b7_on"@, 0u16),
            ("b8_freq"@, 9460u16),
            ("b8_gain"@, 5000u16),
            ("b8_q"@, 2240u16),
            ("b8_type"@, 6670u16),
            ("b8_on"@, 0u16),
            ("output_gain"@, 5000u16),
        ],
        seq![
            ("b1_freq"@, 1500u16),
            ("b1_gain"@, 5000u16),
            ("b1_q"@, 2240u16),
            ("b1_type"@, 5000u16),
            ("b1_on"@, 10000u16),
            ("b2_freq"@, 2340u16),
            ("b2_gain"@, 5000u16),
            ("b2_q"@, 2240u16),
            ("b2_type"@, 0u16),
            ("b2_on"@, 0u16),
            ("b3_freq"@, 4130u16),
            ("b3_gain"@, 3890u16),
            ("b3_q"@, 2800u16),
            ("b3_type"@, 0u16),
            ("b3_on"@, 10000u16),
            ("b4_freq"@, 4710u16),
            ("b4_gain"@, 4170u16),
            ("b4_q"@, 2800u16),
            ("b4_type"@, 0u16),
            ("b4_on"@, 10000u16),
            ("b5_freq"@, 5940u16),
            ("b5_gain"@, 5000u16),
            ("b5_q"@, 2240u16),
            ("b5_type"@, 0u16),
            ("b5_on"@, 0u16),
            ("b6_freq"@, 7070u16),
            ("b6_gain"@, 5000u16),
            ("b6_q"@, 2240u16),
            ("b6_type"@, 0u16),
            ("b6_on"@, 0u16),
            ("b7_freq"@, 8410u16),
            ("b7_gain"@, 5000u16),
            ("b7_q"@, 2240u16),
            ("b7_type"@, 0u16),
            ("b7_on"@, 0u16),
            ("b8_freq"@, 9460u16),
            ("b8_gain"@, 5000u16),
            ("b8_q"@, 1840u16),
            ("b8_type"@, 6670u16),
            ("b8_on"@, 10000u16),
            ("output_gain"@, 5000u16),
        ],
        seq![
            ("b1_freq"@, 3440u16),
            ("b1_gain"@, 5000u16),
            ("b1_q"@, 3260u16),
            ("b1_type"@, 5000u16),
            ("b1_on"@, 10000u16),
            ("b2_freq"@, 2340u16),
            ("b2_gain"@, 5000u16),
            ("b2_q"@, 2240u16),
            ("b2_type"@, 0u16),
            ("b2_on"@, 0u16),
            ("b3_freq"@, 3280u16),
            ("b3_gain"@, 5000u16),
            ("b3_q"@, 2240u16),
            ("b3_type"@, 0u16),
            ("b3_on"@, 0u16),
            ("b4_freq"@, 4450u16),
            ("b4_gain"@, 5000u16),
            ("b4_q"@, 2240u16),
            ("b4_type"@, 0u16),
            ("b4_on"@, 0u16),
            ("b5_freq"@, 5940u16),
            ("b5_gain"@, 5000u16),
            ("b5_q"@, 2240u16),
            ("b5_type"@, 0u16),
            ("b5_on"@, 0u16),
            ("b6_freq"@, 7070u16),
            ("b6_gain"@, 5000u16),
            ("b6_q"@, 2240u16),
            ("b6_type"@, 0u16),
            ("b6_on"@, 0u16),
            ("b7_freq"@, 8410u16),
            ("b7_gain"@, 5000u16),
            ("b7_q"@, 2240u16),
            ("b7_type"@, 0u16),
            ("b7_on"@, 0u16),
            ("b8_freq"@, 6210u16),
            ("b8_gain"@, 5000u16),
            ("b8_q"@, 3260u16),
            ("b8_type"@, 6670u16),
            ("b8_on"@, 10000u16),
            ("output_gain"@, 5000u16),
        ],
    ]
}

/// The factory presets, each value normalized to `0 ..= NORMALIZED_ONE`.
pub fn factory_presets() -> (presets: Vec<FactoryPreset>)
    ensures
        presets.len() == PRESET_COUNT,
        names_of(presets@) == preset_names(),
        categories_of(presets@) == preset_categories(),
        entries_of(presets@) == preset_entries(),
        well_formed_bank(presets@, param_ids()),
{
    let presets = vec![
        FactoryPreset {
            name: "Init",
            category: "Default",
            values: vec![
                ("b1_freq", 1500),
                ("b1_gain", 5000),
                ("b1_q", 2240),
                ("b1_type", 5000),
                ("b1_on", 10000),
                ("b2_freq", 2340),
                ("b2_gain", 5000),
                ("b2_q", 2240),
                ("b2_type", 0),
                ("b2_on", 10000),
                ("b3_freq", 3280),
                ("b3_gain", 5000),
                ("b3_q", 2240),
                ("b3_type", 0),
                ("b3_on", 10000),
                ("b4_freq", 4450),
                ("b4_gain", 5000),
                ("b4_q", 2240),
                ("b4_type", 0),
                ("b4_on", 10000),
                ("b5_freq", 5940),
                ("b5_gain", 5000),
                ("b5_q", 2240),
                ("b5_type", 0),
                ("b5_on", 10000),
                ("b6_freq", 7070),
                ("b6_gain", 5000),
                ("b6_q", 2240),
                ("b6_type", 0),
                ("b6_on", 10000),
                ("b7_freq", 8410),
                ("b7_gain", 5000),
                ("b7_q", 2240),
                ("b7_type", 0),
                ("b7_on", 10000),
                ("b8_freq", 9460),
                ("b8_gain", 5000),
                ("b8_q", 2240),
                ("b8_type", 6670),
                ("b8_on", 10000),
                ("output_gain", 5000),
            ],
        },
        FactoryPreset {
            name: "Vocal Presence",
            category: "Vocals",
            values: vec![
                ("b1_freq", 2340),
                ("b1_gain", 5000),
                ("b1_q", 1840),
                ("b1_type", 5000),
                ("b1_on", 10000),
                ("b2_freq", 3280),
                ("b2_gain", 4440),
                ("b2_q", 2240),
                ("b2_type", 0),
                ("b2_on", 10000),
                ("b3_freq", 4450),
                ("b3_gain", 5000),
                ("b3_q", 2240),
                ("b3_type", 0),
                ("b3_on", 10000),
                ("b4_freq", 5940),
                ("b4_gain", 5830),
                ("b4_q", 2240),
                ("b4_type", 0),
                ("b4_on", 10000),
                ("b5_freq", 6680),
                ("b5_gain", 5560),
                ("b5_q", 2800),
                ("b5_type", 0),
                ("b5_on", 10000),
                ("b6_freq", 7070),
                ("b6_gain", 5000),
                ("b6_q", 2240),
                ("b6_type", 0),
                ("b6_on", 10000),
                ("b7_freq", 8410),
                ("b7_gain", 5560),
                ("b7_q", 1840),
                ("b7_type", 3330),
                ("b7_on", 10000),
                ("b8_freq", 9460),
                ("b8_gain", 5000),
                ("b8_q", 1840),
                ("b8_type", 6670),
                ("b8_on", 10000),
                ("output_gain", 5000),
            ],
        },
        FactoryPreset {
            name: "Bass Scoop",
            category: "Mixing",
            values: vec![
                ("b1_freq", 1780),
                ("b1_gain", 5560),
                ("b1_q", 1840),
                ("b1_type", 1670),
                ("b1_on", 10000),
                ("b2_freq", 2340),
                ("b2_gain", 5000),
                ("b2_q", 2240),
                ("b2_type", 0),
                ("b2_on", 10000),
                ("b3_freq", 3280),
                ("b3_gain", 3890),
                ("b3_q", 2240),
                ("b3_type", 0),
                ("b3_on", 10000),
                ("b4_freq", 3940),
                ("b4_gain", 4170),
                ("b4_q", 2800),
                ("b4_type", 0),
                ("b4_on", 10000),
                ("b5_freq", 5940),
                ("b5_gain", 5000),
                ("b5_q", 2240),
                ("b5_type", 0),
                ("b5_on", 10000),
                ("b6_freq", 7070),
                ("b6_gain", 5560),
                ("b6_q", 2240),
                ("b6_type", 0),
                ("b6_on", 10000),
                ("b7_freq", 8410),
                ("b7_gain", 5000),
                ("b7_q", 2240),
                ("b7_type", 0),
                ("b7_on", 10000),
                ("b8_freq", 9460),
                ("b8_gain", 5000),
                ("b8_q", 1840),
                ("b8_type", 6670),
                ("b8_on", 10000),
                ("output_gain", 5000),
            ],
        },
        FactoryPreset {
            name: "High Shelf Air",
            category: "Mixing",
            values: vec![
                ("b1_freq", 1500),
                ("b1_gain", 5000),
                ("b1_q", 2240),
                ("b1_type", 5000),
                ("b1_on", 10000),
                ("b2_freq", 2340),
                ("b2_gain", 5000),
                ("b2_q", 2240),
                ("b2_type", 0),
                ("b2_on", 0),
                ("b3_freq", 3280),
                ("b3_gain", 5000),
                ("b3_q", 2240),
                ("b3_type", 0),
                ("b3_on", 0),
                ("b4_freq", 4450),
                ("b4_gain", 5000),
                ("b4_q", 2240),
                ("b4_type", 0),
                ("b4_on", 0),
                ("b5_freq", 5940),
                ("b5_gain", 5000),
                ("b5_q", 2240),
                ("b5_type", 0),
                ("b5_on", 0),
                ("b6_freq", 7070),
                ("b6_gain", 5000),
                ("b6_q", 2240),
                ("b6_type", 0),
                ("b6_on", 0),
                ("b7_freq", 7950),
                ("b7_gain", 6110),
                ("b7_q", 1840),
                ("b7_type", 3330),
                ("b7_on", 10000),
                ("b8_freq", 9460),
                ("b8_gain", 5000),
                ("b8_q", 1840),
                ("b8_type", 6670),
                ("b8_on", 0),
                ("output_gain", 5000),
            ],
        },
        FactoryPreset {
            name: "Low Cut 80Hz",
            category: "Utility",
            values: vec![
                ("b1_freq", 2340),
                ("b1_gain", 5000),
                ("b1_q", 1840),
                ("b1_type", 5000),
                ("b1_on", 10000),
                ("b2_freq", 2340),
                ("b2_gain", 5000),
                ("b2_q", 2240),
                ("b2_type", 0),
                ("b2_on", 0),
                ("b3_freq", 3280),
                ("b3_gain", 5000),
                ("b3_q", 2240),
                ("b3_type", 0),
                ("b3_on", 0),
                ("b4_freq", 4450),
                ("b4_gain", 5000),
                ("b4_q", 2240),
                ("b4_type", 0),
                ("b4_on", 0),
                ("b5_freq", 5940),
                ("b5_gain", 5000),
                ("b5_q", 2240),
                ("b5_type", 0),
                ("b5_on", 0),
                ("b6_freq", 7070),
                ("b6_gain", 5000),
                ("b6_q", 2240),
                ("b6_type", 0),
                ("b6_on", 0),
                ("b7_freq", 8410),
                ("b7_gain", 5000),
                ("b7_q", 2240),
                ("b7_type", 0),
                ("b7_on", 0),
                ("b8_freq", 9460),
                ("b8_gain", 5000),
                ("b8_q", 2240),
                ("b8_type", 6670),
                ("b8_on", 0),
                ("output_gain", 5000),
            ],
        },
        FactoryPreset {
            name: "Mid Dip",
            category: "Mixing",
            values: vec![
                ("b1_freq", 1500),
                ("b1_gain", 5000),
                ("b1_q", 2240),
                ("b1_type", 5000),
                ("b1_on", 10000),
                ("b2_freq", 2340),
                ("b2_gain", 5000),
                ("b2_q", 2240),
                ("b2_type", 0),
                ("b2_on", 0),
                ("b3_freq", 4130),
                ("b3_gain", 3890),
                ("b3_q", 2800),
                ("b3_type", 0),
                ("b3_on", 10000),
                ("b4_freq", 4710),
                ("b4_gain", 4170),
                ("b4_q", 2800),
                ("b4_type", 0),
                ("b4_on", 10000),
                ("b5_freq", 5940),
                ("b5_gain", 5000),
                ("b5_q", 2240),
                ("b5_type", 0),
                ("b5_on", 0),
                ("b6_freq", 7070),
                ("b6_gain", 5000),
                ("b6_q", 2240),
                ("b6_type", 0),
                ("b6_on", 0),
                ("b7_freq", 8410),
                ("b7_gain", 5000),
                ("b7_q", 2240),
                ("b7_type", 0),
                ("b7_on", 0),
                ("b8_freq", 9460),
                ("b8_gain", 5000),
                ("b8_q", 1840),
                ("b8_type", 6670),
                ("b8_on", 10000),
                ("output_gain", 5000),
            ],
        },
        FactoryPreset {
            name: "Telephone",
            category: "Creative",
            values: vec![
                ("b1_freq", 3440),
                ("b1_gain", 5000),
                ("b1_q", 3260),
                ("b1_type", 5000),
                ("b1_on", 10000),
                ("b2_freq", 2340),
                ("b2_gain", 5000),
                ("b2_q", 2240),
                ("b2_type", 0),
                ("b2_on", 0),
                ("b3_freq", 3280),
                ("b3_gain", 5000),
                ("b3_q", 2240),
                ("b3_type", 0),
                ("b3_on", 0),
                ("b4_freq", 4450),
                ("b4_gain", 5000),
                ("b4_q", 2240),
                ("b4_type", 0),
                ("b4_on", 0),
                ("b5_freq", 5940),
                ("b5_gain", 5000),
                ("b5_q", 2240),
                ("b5_type", 0),
                ("b5_on", 0),
                ("b6_freq", 7070),
                ("b6_gain", 5000),
                ("b6_q", 2240),
                ("b6_type", 0),
                ("b6_on", 0),
                ("b7_freq", 8410),
                ("b7_gain", 5000),
                ("b7_q", 2240),
                ("b7_type", 0),
                ("b7_on", 0),
                ("b8_freq", 6210),
                ("b8_gain", 5000),
                ("b8_q", 3260),
                ("b8_type", 6670),
                ("b8_on", 10000),
                ("output_gain", 5000),
            ],
        },
    ];
    assert(names_of(presets@) =~= preset_names());
    assert(categories_of(presets@) =~= preset_categories());
    assert(presets@[0].entries() =~= preset_entries()[0]);
    assert(presets@[1].entries() =~= preset_entries()[1]);
    assert(presets@[2].entries() =~= preset_entries()[2]);
    assert(presets@[3].entries() =~= preset_entries()[3]);
    assert(presets@[4].entries() =~= preset_entries()[4]);
    assert(presets@[5].entries() =~= preset_entries()[5]);
    assert(presets@[6].entries() =~= preset_entries()[6]);
    assert(entries_of(presets@) =~= preset_entries());
    presets
}

/// The name of the preset at `current`, or "Custom" when `current` is not the
/// index of a factory preset.
pub fn current_preset_name(current: usize) -> (name: &'static str)
    ensures
        name@ == preset_label(preset_names(), current as int),
{
    label_at(&factory_presets(), current)
}

/// The number of factory presets.
pub fn preset_count() -> (count: usize)
    ensures
        count == preset_names().len(),
{
    PRESET_COUNT
}

/// Advances `current` to the next preset, from the last back to the first,
/// and returns the index it held before.
pub fn next_preset(current: &mut usize) -> (previous: usize)
    requires
        *old(current) < usize::MAX,
    ensures
        previous == *old(current),
        *final(current) == spec_next_index(*old(current) as int, preset_names().len() as int),
{
    step_forward(current, PRESET_COUNT)
}

/// Moves `current` back to the previous preset, from the first to the last,
/// and returns the index it held before.
pub fn prev_preset(current: &mut usize) -> (previous: usize)
    ensures
        previous == *old(current),
        *final(current) == spec_prev_index(*old(current) as int, preset_names().len() as int),
{
    step_back(current, PRESET_COUNT)
}

/// The browser shows "Custom" exactly when the current index is not that of a
/// factory preset: no factory preset is named "Custom".
pub proof fn law_custom_only_outside_bank(current: int)
    ensures
        (preset_label(preset_names(), current) == "Custom"@) <==> !(0 <= current < preset_names().len()),
{
    reveal_strlit("Custom");
    reveal_strlit("Init");
    reveal_strlit("Vocal Presence");
    reveal_strlit("Bass Scoop");
    reveal_strlit("High Shelf Air");
    reveal_strlit("Low Cut 80Hz");
    reveal_strlit("Mid Dip");
    reveal_strlit("Telephone");
    assert forall|i: int| 0 <= i < preset_names().len() implies preset_names()[i] != "Custom"@ by {
        if preset_names()[i].len() == "Custom"@.len() {
            assert(preset_names()[i][0] != "Custom"@[0] || preset_names()[i][1] != "Custom"@[1]);
        }
    }
}

} // verus!
