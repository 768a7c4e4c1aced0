// What the Oasis Comp factory presets do, read from their values: the
// settings their names promise.
use vstd::prelude::*;

use crate::comp::presets::{preset_entries, preset_names};

verus! {

/// "Bus Glue" detects the level by RMS.
pub proof fn law_bus_glue(i: int)
    requires
        0 <= i < preset_names().len(),
        preset_names()[i] == "Bus Glue"@,
    ensures
        preset_entries()[i].contains(("detection"@, 10000u16)),
{
    lemma_names_distinct();
    assert(i == 3);
    assert(preset_entries()[3][7] == ("detection"@, 10000u16));
}

/// "Gentle Squeeze" detects the level by RMS.
pub proof fn law_gentle_squeeze(i: int)
    requires
        0 <= i < preset_names().len(),
        preset_names()[i] == "Gentle Squeeze"@,
    ensures
        preset_entries()[i].contains(("detection"@, 10000u16)),
{
    lemma_names_distinct();
    assert(i == 4);
    assert(preset_entries()[4][7] == ("detection"@, 10000u16));
}

/// "Parallel Smash" mixes the compressed signal half and half with the dry one.
pub proof fn law_parallel_smash(i: int)
    requires
        0 <= i < preset_names().len(),
        preset_names()[i] == "Parallel Smash"@,
    ensures
        preset_entries()[i].contains(("mix"@, 5000u16)),
{
    lemma_names_distinct();
    assert(i == 5);
    assert(preset_entries()[5][6] == ("mix"@, 5000u16));
}

/// The factory presets have distinct names.
proof fn lemma_names_distinct()
    ensures
        forall|i: int, j: int|
            0 <= i < j < preset_names().len() ==> preset_names()[i] != preset_names()[j],
{
    reveal_strlit("Init");
    reveal_strlit("Vocal Glue");
    reveal_strlit("Drum Punch");
    reveal_strlit("Bus Glue");
    reveal_strlit("Gentle Squeeze");
    reveal_strlit("Parallel Smash");
    assert forall|i: int, j: int| 0 <= i < j < preset_names().len() implies preset_names()[i]
        != preset_names()[j] by {
        if preset_names()[i].len() == preset_names()[j].len() {
            assert(preset_names()[i][0] != preset_names()[j][0] || preset_names()[i][1]
                != preset_names()[j][1]);
        }
    }
}

} // verus!
