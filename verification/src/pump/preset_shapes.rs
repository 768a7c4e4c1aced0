// What the Oasis Pump factory presets do, read from their values: the
// settings their names promise.
use vstd::prelude::*;

use crate::pump::presets::{preset_entries, preset_names};

verus! {

/// "Trance Gate" gates with the square shape (the third of four).
pub proof fn law_trance_gate(i: int)
    requires
        0 <= i < preset_names().len(),
        preset_names()[i] == "Trance Gate"@,
    ensures
        preset_entries()[i].contains(("shape"@, 6670u16)),
{
    lemma_names_distinct();
    assert(i == 3);
    assert(preset_entries()[3][3] == ("shape"@, 6670u16));
}

/// "Sidechain Pump" ducks with the exponential shape (the last of four).
pub proof fn law_sidechain_pump(i: int)
    requires
        0 <= i < preset_names().len(),
        preset_names()[i] == "Sidechain Pump"@,
    ensures
        preset_entries()[i].contains(("shape"@, 10000u16)),
{
    lemma_names_distinct();
    assert(i == 1);
    assert(preset_entries()[1][3] == ("shape"@, 10000u16));
}

/// The factory presets have distinct names.
proof fn lemma_names_distinct()
    ensures
        forall|i: int, j: int|
            0 <= i < j < preset_names().len() ==> preset_names()[i] != preset_names()[j],
{
    reveal_strlit("Init");
    reveal_strlit("Sidechain Pump");
    reveal_strlit("Subtle Pulse");
    reveal_strlit("Trance Gate");
    reveal_strlit("Half-Time Swell");
    reveal_strlit("Choppy Eighth");
    assert forall|i: int, j: int| 0 <= i < j < preset_names().len() implies preset_names()[i]
        != preset_names()[j] by {
        if preset_names()[i].len() == preset_names()[j].len() {
            assert(preset_names()[i][0] != preset_names()[j][0] || preset_names()[i][1]
                != preset_names()[j][1]);
        }
    }
}

} // verus!
