// What the Oasis Delay factory presets do, read from their values: the
// settings their names promise.
use vstd::prelude::*;

use crate::delay::presets::{preset_entries, preset_names};

verus! {

/// "Ping-Pong Eighth" switches ping-pong on.
pub proof fn law_ping_pong_eighth(i: int)
    requires
        0 <= i < preset_names().len(),
        preset_names()[i] == "Ping-Pong Eighth"@,
    ensures
        preset_entries()[i].contains(("ping_pong"@, 10000u16)),
{
    lemma_names_distinct();
    assert(i == 2);
    assert(preset_entries()[2][3] == ("ping_pong"@, 10000u16));
}

/// "Stereo Slapback" keeps each side's echo on its own side: ping-pong off.
pub proof fn law_stereo_slapback(i: int)
    requires
        0 <= i < preset_names().len(),
        preset_names()[i] == "Stereo Slapback"@,
    ensures
        preset_entries()[i].contains(("ping_pong"@, 0u16)),
{
    lemma_names_distinct();
    assert(i == 1);
    assert(preset_entries()[1][3] == ("ping_pong"@, 0u16));
}

/// The factory presets have distinct names.
proof fn lemma_names_distinct()
    ensures
        forall|i: int, j: int|
            0 <= i < j < preset_names().len() ==> preset_names()[i] != preset_names()[j],
{
    reveal_strlit("Init");
    reveal_strlit("Stereo Slapback");
    reveal_strlit("Ping-Pong Eighth");
    reveal_strlit("Dark Tape Echo");
    reveal_strlit("Modulated Space");
    reveal_strlit("Ambient Wash");
    assert forall|i: int, j: int| 0 <= i < j < preset_names().len() implies preset_names()[i]
        != preset_names()[j] by {
        if preset_names()[i].len() == preset_names()[j].len() {
            assert(preset_names()[i][0] != preset_names()[j][0] || preset_names()[i][1]
                != preset_names()[j][1]);
        }
    }
}

} // verus!
