// What the EQ factory presets do, read from their values: the filters each
// switches on, as its name promises.
use vstd::prelude::*;

use crate::eq::params::{filter_type_value, FilterType};
use crate::eq::presets::{preset_entries, preset_names};
use crate::presets::NORMALIZED_ONE;

verus! {

/// Whether `entries` sets the parameter `id` to `value`.
pub open spec fn sets(entries: Seq<(Seq<char>, u16)>, id: Seq<char>, value: u16) -> bool {
    entries.contains((id, value))
}

/// The normalized gain of 0 dB on the EQ's -18 ..= +18 dB gain range.
pub open spec fn flat_gain() -> u16 {
    5000
}

/// Whether `entries` sets `id` to a gain above 0 dB.
pub open spec fn boosts(entries: Seq<(Seq<char>, u16)>, id: Seq<char>) -> bool {
    exists|v: u16| v > flat_gain() && #[trigger] sets(entries, id, v)
}

/// Whether `entries` sets `id` to a gain below 0 dB.
pub open spec fn cuts(entries: Seq<(Seq<char>, u16)>, id: Seq<char>) -> bool {
    exists|v: u16| v < flat_gain() && #[trigger] sets(entries, id, v)
}

/// "Init" switches every band on, flat at 0 dB, between a low cut and a high cut.
pub proof fn law_init(i: int)
    requires
        0 <= i < preset_names().len(),
        preset_names()[i] == "Init"@,
    ensures
        ({
            let e = preset_entries()[i];
            &&& sets(e, "b1_on"@, NORMALIZED_ONE)
            &&& sets(e, "b2_on"@, NORMALIZED_ONE)
            &&& sets(e, "b3_on"@, NORMALIZED_ONE)
            &&& sets(e, "b4_on"@, NORMALIZED_ONE)
            &&& sets(e, "b5_on"@, NORMALIZED_ONE)
            &&& sets(e, "b6_on"@, NORMALIZED_ONE)
            &&& sets(e, "b7_on"@, NORMALIZED_ONE)
            &&& sets(e, "b8_on"@, NORMALIZED_ONE)
            &&& sets(e, "b1_gain"@, flat_gain())
            &&& sets(e, "b2_gain"@, flat_gain())
            &&& sets(e, "b3_gain"@, flat_gain())
            &&& sets(e, "b4_gain"@, flat_gain())
            &&& sets(e, "b5_gain"@, flat_gain())
            &&& sets(e, "b6_gain"@, flat_gain())
            &&& sets(e, "b7_gain"@, flat_gain())
            &&& sets(e, "b8_gain"@, flat_gain())
            &&& sets(e, "b1_type"@, filter_type_value(FilterType::LowCut))
            &&& sets(e, "b8_type"@, filter_type_value(FilterType::HighCut))
        }),
{
    lemma_names_distinct();
    assert(i == 0);
    let e = preset_entries()[i];
    assert(e[4] == ("b1_on"@, 10000u16));
    assert(e[9] == ("b2_on"@, 10000u16));
    assert(e[14] == ("b3_on"@, 10000u16));
    assert(e[19] == ("b4_on"@, 10000u16));
    assert(e[24] == ("b5_on"@, 10000u16));
    assert(e[29] == ("b6_on"@, 10000u16));
    assert(e[34] == ("b7_on"@, 10000u16));
    assert(e[39] == ("b8_on"@, 10000u16));
    assert(e[1] == ("b1_gain"@, 5000u16));
    assert(e[6] == ("b2_gain"@, 5000u16));
    assert(e[11] == ("b3_gain"@, 5000u16));
    assert(e[16] == ("b4_gain"@, 5000u16));
    assert(e[21] == ("b5_gain"@, 5000u16));
    assert(e[26] == ("b6_gain"@, 5000u16));
    assert(e[31] == ("b7_gain"@, 5000u16));
    assert(e[36] == ("b8_gain"@, 5000u16));
    assert(e[3] == ("b1_type"@, 5000u16));
    assert(e[38] == ("b8_type"@, 6670u16));
}

/// "Vocal Presence" lifts the presence range with a boosting bell on band 4 and a boosting high shelf on band 7.
pub proof fn law_vocal_presence(i: int)
    requires
        0 <= i < preset_names().len(),
        preset_names()[i] == "Vocal Presence"@,
    ensures
        ({
            let e = preset_entries()[i];
            &&& sets(e, "b4_on"@, NORMALIZED_ONE)
            &&& sets(e, "b4_type"@, filter_type_value(FilterType::Bell))
            &&& boosts(e, "b4_gain"@)
            &&& sets(e, "b7_on"@, NORMALIZED_ONE)
            &&& sets(e, "b7_type"@, filter_type_value(FilterType::HighShelf))
            &&& boosts(e, "b7_gain"@)
        }),
{
    lemma_names_distinct();
    assert(i == 1);
    let e = preset_entries()[i];
    assert(e[19] == ("b4_on"@, 10000u16));
    assert(e[18] == ("b4_type"@, 0u16));
    assert(e[16] == ("b4_gain"@, 5830u16));
    assert(sets(e, "b4_gain"@, 5830u16));
    assert(e[34] == ("b7_on"@, 10000u16));
    assert(e[33] == ("b7_type"@, 3330u16));
    assert(e[31] == ("b7_gain"@, 5560u16));
    assert(sets(e, "b7_gain"@, 5560u16));
}

/// "Bass Scoop" boosts the lows with a low shelf on band 1 and scoops the low mids with cutting bells on bands 3 and 4.
pub proof fn law_bass_scoop(i: int)
    requires
        0 <= i < preset_names().len(),
        preset_names()[i] == "Bass Scoop"@,
    ensures
        ({
            let e = preset_entries()[i];
            &&& sets(e, "b1_on"@, NORMALIZED_ONE)
            &&& sets(e, "b1_type"@, filter_type_value(FilterType::LowShelf))
            &&& boosts(e, "b1_gain"@)
            &&& sets(e, "b3_on"@, NORMALIZED_ONE)
            &&& sets(e, "b3_type"@, filter_type_value(FilterType::Bell))
            &&& cuts(e, "b3_gain"@)
            &&& sets(e, "b4_on"@, NORMALIZED_ONE)
            &&& sets(e, "b4_type"@, filter_type_value(FilterType::Bell))
            &&& cuts(e, "b4_gain"@)
        }),
{
    lemma_names_distinct();
    assert(i == 2);
    let e = preset_entries()[i];
    assert(e[4] == ("b1_on"@, 10000u16));
    assert(e[3] == ("b1_type"@, 1670u16));
    assert(e[1] == ("b1_gain"@, 5560u16));
    assert(sets(e, "b1_gain"@, 5560u16));
    assert(e[14] == ("b3_on"@, 10000u16));
    assert(e[13] == ("b3_type"@, 0u16));
    assert(e[11] == ("b3_gain"@, 3890u16));
    assert(sets(e, "b3_gain"@, 3890u16));
    assert(e[19] == ("b4_on"@, 10000u16));
    assert(e[18] == ("b4_type"@, 0u16));
    assert(e[16] == ("b4_gain"@, 4170u16));
    assert(sets(e, "b4_gain"@, 4170u16));
}

/// "High Shelf Air" adds air with a boosting high shelf on band 7.
pub proof fn law_high_shelf_air(i: int)
    requires
        0 <= i < preset_names().len(),
        preset_names()[i] == "High Shelf Air"@,
    ensures
        ({
            let e = preset_entries()[i];
            &&& sets(e, "b7_on"@, NORMALIZED_ONE)
            &&& sets(e, "b7_type"@, filter_type_value(FilterType::HighShelf))
            &&& boosts(e, "b7_gain"@)
        }),
{
    lemma_names_distinct();
    assert(i == 3);
    let e = preset_entries()[i];
    assert(e[34] == ("b7_on"@, 10000u16));
    assert(e[33] == ("b7_type"@, 3330u16));
    assert(e[31] == ("b7_gain"@, 6110u16));
    assert(sets(e, "b7_gain"@, 6110u16));
}

/// "Low Cut 80Hz" switches on a low cut on band 1 and nothing else.
pub proof fn law_low_cut_80hz(i: int)
    requires
        0 <= i < preset_names().len(),
        preset_names()[i] == "Low Cut 80Hz"@,
    ensures
        ({
            let e = preset_entries()[i];
            &&& sets(e, "b1_on"@, NORMALIZED_ONE)
            &&& sets(e, "b1_type"@, filter_type_value(FilterType::LowCut))
            &&& sets(e, "b2_on"@, 0)
            &&& sets(e, "b3_on"@, 0)
            &&& sets(e, "b4_on"@, 0)
            &&& sets(e, "b5_on"@, 0)
            &&& sets(e, "b6_on"@, 0)
            &&& sets(e, "b7_on"@, 0)
            &&& sets(e, "b8_on"@, 0)
        }),
{
    lemma_names_distinct();
    assert(i == 4);
    let e = preset_entries()[i];
    assert(e[4] == ("b1_on"@, 10000u16));
    assert(e[3] == ("b1_type"@, 5000u16));
    assert(e[9] == ("b2_on"@, 0u16));
    assert(e[14] == ("b3_on"@, 0u16));
    assert(e[19] == ("b4_on"@, 0u16));
    assert(e[24] == ("b5_on"@, 0u16));
    assert(e[29] == ("b6_on"@, 0u16));
    assert(e[34] == ("b7_on"@, 0u16));
    assert(e[39] == ("b8_on"@, 0u16));
}

/// "Mid Dip" cuts the mids with cutting bells on bands 3 and 4.
pub proof fn law_mid_dip(i: int)
    requires
        0 <= i < preset_names().len(),
        preset_names()[i] == "Mid Dip"@,
    ensures
        ({
            let e = preset_entries()[i];
            &&& sets(e, "b3_on"@, NORMALIZED_ONE)
            &&& sets(e, "b3_type"@, filter_type_value(FilterType::Bell))
            &&& cuts(e, "b3_gain"@)
            &&& sets(e, "b4_on"@, NORMALIZED_ONE)
            &&& sets(e, "b4_type"@, filter_type_value(FilterType::Bell))
            &&& cuts(e, "b4_gain"@)
        }),
{
    lemma_names_distinct();
    assert(i == 5);
    let e = preset_entries()[i];
    assert(e[14] == ("b3_on"@, 10000u16));
    assert(e[13] == ("b3_type"@, 0u16));
    assert(e[11] == ("b3_gain"@, 3890u16));
    assert(sets(e, "b3_gain"@, 3890u16));
    assert(e[19] == ("b4_on"@, 10000u16));
    assert(e[18] == ("b4_type"@, 0u16));
    assert(e[16] == ("b4_gain"@, 4170u16));
    assert(sets(e, "b4_gain"@, 4170u16));
}

/// "Telephone" band-limits the sound with a low cut on band 1 and a high cut on band 8, every other band off.
pub proof fn law_telephone(i: int)
    requires
        0 <= i < preset_names().len(),
        preset_names()[i] == "Telephone"@,
    ensures
        ({
            let e = preset_entries()[i];
            &&& sets(e, "b1_on"@, NORMALIZED_ONE)
            &&& sets(e, "b1_type"@, filter_type_value(FilterType::LowCut))
            &&& sets(e, "b8_on"@, NORMALIZED_ONE)
            &&& sets(e, "b8_type"@, filter_type_value(FilterType::HighCut))
            &&& sets(e, "b2_on"@, 0)
            &&& sets(e, "b3_on"@, 0)
            &&& sets(e, "b4_on"@, 0)
            &&& sets(e, "b5_on"@, 0)
            &&& sets(e, "b6_on"@, 0)
            &&& sets(e, "b7_on"@, 0)
        }),
{
    lemma_names_distinct();
    assert(i == 6);
    let e = preset_entries()[i];
    assert(e[4] == ("b1_on"@, 10000u16));
    assert(e[3] == ("b1_type"@, 5000u16));
    assert(e[39] == ("b8_on"@, 10000u16));
    assert(e[38] == ("b8_type"@, 6670u16));
    assert(e[9] == ("b2_on"@, 0u16));
    assert(e[14] == ("b3_on"@, 0u16));
    assert(e[19] == ("b4_on"@, 0u16));
    assert(e[24] == ("b5_on"@, 0u16));
    assert(e[29] == ("b6_on"@, 0u16));
    assert(e[34] == ("b7_on"@, 0u16));
}

/// Every EQ factory preset switches at least one band on: none of them is a
/// flat, bypassed EQ.
pub proof fn law_every_preset_switches_a_band_on(i: int)
    requires
        0 <= i < preset_names().len(),
    ensures
        ({
            let e = preset_entries()[i];
            sets(e, "b1_on"@, NORMALIZED_ONE)
                || sets(e, "b2_on"@, NORMALIZED_ONE)
                || sets(e, "b3_on"@, NORMALIZED_ONE)
                || sets(e, "b4_on"@, NORMALIZED_ONE)
                || sets(e, "b5_on"@, NORMALIZED_ONE)
                || sets(e, "b6_on"@, NORMALIZED_ONE)
                || sets(e, "b7_on"@, NORMALIZED_ONE)
                || sets(e, "b8_on"@, NORMALIZED_ONE)
        }),
{
    let e = preset_entries()[i];
    if i == 0 {
        assert(preset_entries()[0][4] == ("b1_on"@, 10000u16));
    }
    if i == 1 {
        assert(preset_entries()[1][4] == ("b1_on"@, 10000u16));
    }
    if i == 2 {
        assert(preset_entries()[2][4] == ("b1_on"@, 10000u16));
    }
    if i == 3 {
        assert(preset_entries()[3][4] == ("b1_on"@, 10000u16));
    }
    if i == 4 {
        assert(preset_entries()[4][4] == ("b1_on"@, 10000u16));
    }
    if i == 5 {
        assert(preset_entries()[5][4] == ("b1_on"@, 10000u16));
    }
    if i == 6 {
        assert(preset_entries()[6][4] == ("b1_on"@, 10000u16));
    }
}

/// The EQ factory presets have distinct names.
proof fn lemma_names_distinct()
    ensures
        forall|i: int, j: int|
            0 <= i < j < preset_names().len() ==> preset_names()[i] != preset_names()[j],
{
    reveal_strlit("Init");
    reveal_strlit("Vocal Presence");
    reveal_strlit("Bass Scoop");
    reveal_strlit("High Shelf Air");
    reveal_strlit("Low Cut 80Hz");
    reveal_strlit("Mid Dip");
    reveal_strlit("Telephone");
    assert forall|i: int, j: int| 0 <= i < j < preset_names().len() implies preset_names()[i]
        != preset_names()[j] by {
        if preset_names()[i].len() == preset_names()[j].len() {
            assert(preset_names()[i][0] != preset_names()[j][0] || preset_names()[i][1]
                != preset_names()[j][1]);
        }
    }
}

} // verus!
