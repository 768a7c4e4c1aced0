// What the Oasis Drive factory presets do, read from their values: the
// settings their names promise.
use vstd::prelude::*;

use crate::drive::presets::{preset_entries, preset_names};

verus! {

/// "Warm Tape" uses the tape algorithm (the first of four).
pub proof fn law_warm_tape(i: int)
    requires
        0 <= i < preset_names().len(),
        preset_names()[i] == "Warm Tape"@,
    ensures
        preset_entries()[i].contains(("algorithm"@, 0u16)),
{
    lemma_names_distinct();
    assert(i == 1);
    assert(preset_entries()[1][3] == ("algorithm"@, 0u16));
}

/// "Tube Warmth" uses the tube algorithm (the second of four).
pub proof fn law_tube_warmth(i: int)
    requires
        0 <= i < preset_names().len(),
        preset_names()[i] == "Tube Warmth"@,
    ensures
        preset_entries()[i].contains(("algorithm"@, 3330u16)),
{
    lemma_names_distinct();
    assert(i == 2);
    assert(preset_entries()[2][3] == ("algorithm"@, 3330u16));
}

/// "Transistor Edge" uses the transistor algorithm (the third of four).
pub proof fn law_transistor_edge(i: int)
    requires
        0 <= i < preset_names().len(),
        preset_names()[i] == "Transistor Edge"@,
    ensures
        preset_entries()[i].contains(("algorithm"@, 6670u16)),
{
    lemma_names_distinct();
    assert(i == 3);
    assert(preset_entries()[3][3] == ("algorithm"@, 6670u16));
}

/// "Digital Crush" uses the digital algorithm (the last of four).
pub proof fn law_digital_crush(i: int)
    requires
        0 <= i < preset_names().len(),
        preset_names()[i] == "Digital Crush"@,
    ensures
        preset_entries()[i].contains(("algorithm"@, 10000u16)),
{
    lemma_names_distinct();
    assert(i == 4);
    assert(preset_entries()[4][3] == ("algorithm"@, 10000u16));
}

/// The factory presets have distinct names.
proof fn lemma_names_distinct()
    ensures
        forall|i: int, j: int|
            0 <= i < j < preset_names().len() ==> preset_names()[i] != preset_names()[j],
{
    reveal_strlit("Init");
    reveal_strlit("Warm Tape");
    reveal_strlit("Tube Warmth");
    reveal_strlit("Transistor Edge");
    reveal_strlit("Digital Crush");
    reveal_strlit("Subtle Grit");
    assert forall|i: int, j: int| 0 <= i < j < preset_names().len() implies preset_names()[i]
        != preset_names()[j] by {
        if preset_names()[i].len() == preset_names()[j].len() {
            assert(preset_names()[i][0] != preset_names()[j][0] || preset_names()[i][1]
                != preset_names()[j][1]);
        }
    }
}

} // verus!
