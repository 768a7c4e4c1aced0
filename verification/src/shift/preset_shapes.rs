// What the Oasis Shift factory presets do, read from their values: the
// settings their names promise.
use vstd::prelude::*;

use crate::shift::presets::{preset_entries, preset_names};

verus! {

/// "Init" shifts by nothing: 0 semitones, 0 cents, no detune.
pub proof fn law_init(i: int)
    requires
        0 <= i < preset_names().len(),
        preset_names()[i] == "Init"@,
    ensures
        preset_entries()[i].contains(("semitones"@, 5000u16)),
        preset_entries()[i].contains(("cents"@, 5000u16)),
        preset_entries()[i].contains(("detune"@, 0u16)),
{
    lemma_names_distinct();
    assert(i == 0);
    assert(preset_entries()[0][0] == ("semitones"@, 5000u16));
    assert(preset_entries()[0][1] == ("cents"@, 5000u16));
    assert(preset_entries()[0][2] == ("detune"@, 0u16));
}

/// "Octave Down" shifts down 12 semitones (2500 on the -24 ..= +24 range) in simple mode.
pub proof fn law_octave_down(i: int)
    requires
        0 <= i < preset_names().len(),
        preset_names()[i] == "Octave Down"@,
    ensures
        preset_entries()[i].contains(("semitones"@, 2500u16)),
        preset_entries()[i].contains(("mode"@, 0u16)),
{
    lemma_names_distinct();
    assert(i == 1);
    assert(preset_entries()[1][0] == ("semitones"@, 2500u16));
    assert(preset_entries()[1][3] == ("mode"@, 0u16));
}

/// "Chipmunk" shifts up 12 semitones (7500 on the -24 ..= +24 range) in simple mode.
pub proof fn law_chipmunk(i: int)
    requires
        0 <= i < preset_names().len(),
        preset_names()[i] == "Chipmunk"@,
    ensures
        preset_entries()[i].contains(("semitones"@, 7500u16)),
        preset_entries()[i].contains(("mode"@, 0u16)),
{
    lemma_names_distinct();
    assert(i == 6);
    assert(preset_entries()[6][0] == ("semitones"@, 7500u16));
    assert(preset_entries()[6][3] == ("mode"@, 0u16));
}

/// "Fifth Up" shifts up 7 semitones (6458 on the -24 ..= +24 range).
pub proof fn law_fifth_up(i: int)
    requires
        0 <= i < preset_names().len(),
        preset_names()[i] == "Fifth Up"@,
    ensures
        preset_entries()[i].contains(("semitones"@, 6458u16)),
{
    lemma_names_distinct();
    assert(i == 2);
    assert(preset_entries()[2][0] == ("semitones"@, 6458u16));
}

/// "Harmony Third" shifts up 4 semitones (5833 on the -24 ..= +24 range).
pub proof fn law_harmony_third(i: int)
    requires
        0 <= i < preset_names().len(),
        preset_names()[i] == "Harmony Third"@,
    ensures
        preset_entries()[i].contains(("semitones"@, 5833u16)),
{
    lemma_names_distinct();
    assert(i == 5);
    assert(preset_entries()[5][0] == ("semitones"@, 5833u16));
}

/// "Subtle Detune" runs in detune mode.
pub proof fn law_subtle_detune(i: int)
    requires
        0 <= i < preset_names().len(),
        preset_names()[i] == "Subtle Detune"@,
    ensures
        preset_entries()[i].contains(("mode"@, 10000u16)),
{
    lemma_names_distinct();
    assert(i == 3);
    assert(preset_entries()[3][3] == ("mode"@, 10000u16));
}

/// "ADT Thicken" runs in detune mode.
pub proof fn law_adt_thicken(i: int)
    requires
        0 <= i < preset_names().len(),
        preset_names()[i] == "ADT Thicken"@,
    ensures
        preset_entries()[i].contains(("mode"@, 10000u16)),
{
    lemma_names_distinct();
    assert(i == 4);
    assert(preset_entries()[4][3] == ("mode"@, 10000u16));
}

/// The factory presets have distinct names.
proof fn lemma_names_distinct()
    ensures
        forall|i: int, j: int|
            0 <= i < j < preset_names().len() ==> preset_names()[i] != preset_names()[j],
{
    reveal_strlit("Init");
    reveal_strlit("Octave Down");
    reveal_strlit("Fifth Up");
    reveal_strlit("Subtle Detune");
    reveal_strlit("ADT Thicken");
    reveal_strlit("Harmony Third");
    reveal_strlit("Chipmunk");
    assert forall|i: int, j: int| 0 <= i < j < preset_names().len() implies preset_names()[i]
        != preset_names()[j] by {
        if preset_names()[i].len() == preset_names()[j].len() {
            assert(preset_names()[i][0] != preset_names()[j][0] || preset_names()[i][1]
                != preset_names()[j][1]);
        }
    }
}

} // verus!
