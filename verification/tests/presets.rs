// Factory preset tables and stepping through them, for every plugin.
use oasis::presets::NORMALIZED_ONE;
use oasis::comp::presets as comp_presets;
use oasis::deess::presets as deess_presets;
use oasis::delay::presets as delay_presets;
use oasis::drive::presets as drive_presets;
use oasis::eq::presets as eq_presets;
use oasis::limit::presets as limit_presets;
use oasis::pump::presets as pump_presets;
use oasis::punch::presets as punch_presets;
use oasis::shift::presets as shift_presets;
use oasis::synth::presets as synth_presets;

#[test]
fn comp_preset_names_and_count() {
    assert_eq!(comp_presets::preset_count(), 6);
    let presets = comp_presets::factory_presets();
    assert_eq!(presets.len(), 6);
    assert_eq!(comp_presets::current_preset_name(0), "Init");
    assert_eq!(presets[0].category, "Default");
    assert_eq!(presets[0].values.len(), 10);
    assert_eq!(comp_presets::current_preset_name(1), "Vocal Glue");
    assert_eq!(presets[1].category, "Vocals");
    assert_eq!(presets[1].values.len(), 10);
    assert_eq!(comp_presets::current_preset_name(2), "Drum Punch");
    assert_eq!(presets[2].category, "Drums");
    assert_eq!(presets[2].values.len(), 10);
    assert_eq!(comp_presets::current_preset_name(3), "Bus Glue");
    assert_eq!(presets[3].category, "Master Bus");
    assert_eq!(presets[3].values.len(), 10);
    assert_eq!(comp_presets::current_preset_name(4), "Gentle Squeeze");
    assert_eq!(presets[4].category, "Mixing");
    assert_eq!(presets[4].values.len(), 10);
    assert_eq!(comp_presets::current_preset_name(5), "Parallel Smash");
    assert_eq!(presets[5].category, "Creative");
    assert_eq!(presets[5].values.len(), 10);
    assert_eq!(comp_presets::current_preset_name(6), "Custom");
    assert_eq!(comp_presets::current_preset_name(usize::MAX), "Custom");
}

#[test]
fn comp_preset_values_are_normalized() {
    for preset in comp_presets::factory_presets() {
        for &(_, value) in &preset.values {
            assert!(value <= NORMALIZED_ONE);
        }
    }
    assert!(comp_presets::factory_presets()[5].values.contains(&("threshold", 6000)));
    assert!(comp_presets::factory_presets()[5].values.contains(&("ratio", 6880)));
    assert!(comp_presets::factory_presets()[5].values.contains(&("attack", 630)));
}

#[test]
fn comp_next_and_prev_wrap_and_return_previous() {
    let mut current = 0;
    assert_eq!(comp_presets::prev_preset(&mut current), 0);
    assert_eq!(current, 5);
    assert_eq!(comp_presets::next_preset(&mut current), 5);
    assert_eq!(current, 0);
    assert_eq!(comp_presets::next_preset(&mut current), 0);
    assert_eq!(current, 1);
    let mut far = 11;
    assert_eq!(comp_presets::next_preset(&mut far), 11);
    assert_eq!(far, 0);
    let mut far = 11;
    assert_eq!(comp_presets::prev_preset(&mut far), 11);
    assert_eq!(far, 10);
}

#[test]
fn comp_full_cycle_returns_to_start() {
    let mut current = 2;
    for _ in 0..comp_presets::preset_count() {
        comp_presets::next_preset(&mut current);
    }
    assert_eq!(current, 2);
}

#[test]
fn deess_preset_names_and_count() {
    assert_eq!(deess_presets::preset_count(), 6);
    let presets = deess_presets::factory_presets();
    assert_eq!(presets.len(), 6);
    assert_eq!(deess_presets::current_preset_name(0), "Init");
    assert_eq!(presets[0].category, "Default");
    assert_eq!(presets[0].values.len(), 8);
    assert_eq!(deess_presets::current_preset_name(1), "Vocal De-Ess");
    assert_eq!(presets[1].category, "Vocals");
    assert_eq!(presets[1].values.len(), 8);
    assert_eq!(deess_presets::current_preset_name(2), "Harsh Highs");
    assert_eq!(presets[2].category, "Mixing");
    assert_eq!(presets[2].values.len(), 8);
    assert_eq!(deess_presets::current_preset_name(3), "Gentle Sibilance");
    assert_eq!(presets[3].category, "Vocals");
    assert_eq!(presets[3].values.len(), 8);
    assert_eq!(deess_presets::current_preset_name(4), "Cymbal Tamer");
    assert_eq!(presets[4].category, "Drums");
    assert_eq!(presets[4].values.len(), 8);
    assert_eq!(deess_presets::current_preset_name(5), "Broadcast Voice");
    assert_eq!(presets[5].category, "Vocals");
    assert_eq!(presets[5].values.len(), 8);
    assert_eq!(deess_presets::current_preset_name(6), "Custom");
    assert_eq!(deess_presets::current_preset_name(usize::MAX), "Custom");
}

#[test]
fn deess_preset_values_are_normalized() {
    for preset in deess_presets::factory_presets() {
        for &(_, value) in &preset.values {
            assert!(value <= NORMALIZED_ONE);
        }
    }
    assert!(deess_presets::factory_presets()[5].values.contains(&("frequency", 3230)));
    assert!(deess_presets::factory_presets()[5].values.contains(&("bandwidth", 2000)));
    assert!(deess_presets::factory_presets()[5].values.contains(&("threshold", 7500)));
}

#[test]
fn deess_next_and_prev_wrap_and_return_previous() {
    let mut current = 0;
    assert_eq!(deess_presets::prev_preset(&mut current), 0);
    assert_eq!(current, 5);
    assert_eq!(deess_presets::next_preset(&mut current), 5);
    assert_eq!(current, 0);
    assert_eq!(deess_presets::next_preset(&mut current), 0);
    assert_eq!(current, 1);
    let mut far = 11;
    assert_eq!(deess_presets::next_preset(&mut far), 11);
    assert_eq!(far, 0);
    let mut far = 11;
    assert_eq!(deess_presets::prev_preset(&mut far), 11);
    assert_eq!(far, 10);
}

#[test]
fn deess_full_cycle_returns_to_start() {
    let mut current = 2;
    for _ in 0..deess_presets::preset_count() {
        deess_presets::next_preset(&mut current);
    }
    assert_eq!(current, 2);
}

#[test]
fn delay_preset_names_and_count() {
    assert_eq!(delay_presets::preset_count(), 6);
    let presets = delay_presets::factory_presets();
    assert_eq!(presets.len(), 6);
    assert_eq!(delay_presets::current_preset_name(0), "Init");
    assert_eq!(presets[0].category, "Default");
    assert_eq!(presets[0].values.len(), 11);
    assert_eq!(delay_presets::current_preset_name(1), "Stereo Slapback");
    assert_eq!(presets[1].category, "Creative");
    assert_eq!(presets[1].values.len(), 11);
    assert_eq!(delay_presets::current_preset_name(2), "Ping-Pong Eighth");
    assert_eq!(presets[2].category, "Creative");
    assert_eq!(presets[2].values.len(), 11);
    assert_eq!(delay_presets::current_preset_name(3), "Dark Tape Echo");
    assert_eq!(presets[3].category, "Vintage");
    assert_eq!(presets[3].values.len(), 11);
    assert_eq!(delay_presets::current_preset_name(4), "Modulated Space");
    assert_eq!(presets[4].category, "Creative");
    assert_eq!(presets[4].values.len(), 11);
    assert_eq!(delay_presets::current_preset_name(5), "Ambient Wash");
    assert_eq!(presets[5].category, "Ambient");
    assert_eq!(presets[5].values.len(), 11);
    assert_eq!(delay_presets::current_preset_name(6), "Custom");
    assert_eq!(delay_presets::current_preset_name(usize::MAX), "Custom");
}

#[test]
fn delay_preset_values_are_normalized() {
    for preset in delay_presets::factory_presets() {
        for &(_, value) in &preset.values {
            assert!(value <= NORMALIZED_ONE);
        }
    }
    assert!(delay_presets::factory_presets()[5].values.contains(&("delay_l", 5300)));
    assert!(delay_presets::factory_presets()[5].values.contains(&("delay_r", 5900)));
    assert!(delay_presets::factory_presets()[5].values.contains(&("feedback", 6320)));
}

#[test]
fn delay_next_and_prev_wrap_and_return_previous() {
    let mut current = 0;
    assert_eq!(delay_presets::prev_preset(&mut current), 0);
    assert_eq!(current, 5);
    assert_eq!(delay_presets::next_preset(&mut current), 5);
    assert_eq!(current, 0);
    assert_eq!(delay_presets::next_preset(&mut current), 0);
    assert_eq!(current, 1);
    let mut far = 11;
    assert_eq!(delay_presets::next_preset(&mut far), 11);
    assert_eq!(far, 0);
    let mut far = 11;
    assert_eq!(delay_presets::prev_preset(&mut far), 11);
    assert_eq!(far, 10);
}

#[test]
fn delay_full_cycle_returns_to_start() {
    let mut current = 2;
    for _ in 0..delay_presets::preset_count() {
        delay_presets::next_preset(&mut current);
    }
    assert_eq!(current, 2);
}

#[test]
fn drive_preset_names_and_count() {
    assert_eq!(drive_presets::preset_count(), 6);
    let presets = drive_presets::factory_presets();
    assert_eq!(presets.len(), 6);
    assert_eq!(drive_presets::current_preset_name(0), "Init");
    assert_eq!(presets[0].category, "Default");
    assert_eq!(presets[0].values.len(), 6);
    assert_eq!(drive_presets::current_preset_name(1), "Warm Tape");
    assert_eq!(presets[1].category, "Mixing");
    assert_eq!(presets[1].values.len(), 6);
    assert_eq!(drive_presets::current_preset_name(2), "Tube Warmth");
    assert_eq!(presets[2].category, "Mixing");
    assert_eq!(presets[2].values.len(), 6);
    assert_eq!(drive_presets::current_preset_name(3), "Transistor Edge");
    assert_eq!(presets[3].category, "Creative");
    assert_eq!(presets[3].values.len(), 6);
    assert_eq!(drive_presets::current_preset_name(4), "Digital Crush");
    assert_eq!(presets[4].category, "Creative");
    assert_eq!(presets[4].values.len(), 6);
    assert_eq!(drive_presets::current_preset_name(5), "Subtle Grit");
    assert_eq!(presets[5].category, "Mixing");
    assert_eq!(presets[5].values.len(), 6);
    assert_eq!(drive_presets::current_preset_name(6), "Custom");
    assert_eq!(drive_presets::current_preset_name(usize::MAX), "Custom");
}

#[test]
fn drive_preset_values_are_normalized() {
    for preset in drive_presets::factory_presets() {
        for &(_, value) in &preset.values {
            assert!(value <= NORMALIZED_ONE);
        }
    }
    assert!(drive_presets::factory_presets()[5].values.contains(&("drive", 1500)));
    assert!(drive_presets::factory_presets()[5].values.contains(&("input_gain", 5000)));
    assert!(drive_presets::factory_presets()[5].values.contains(&("tone", 6580)));
}

#[test]
fn drive_next_and_prev_wrap_and_return_previous() {
    let mut current = 0;
    assert_eq!(drive_presets::prev_preset(&mut current), 0);
    assert_eq!(current, 5);
    assert_eq!(drive_presets::next_preset(&mut current), 5);
    assert_eq!(current, 0);
    assert_eq!(drive_presets::next_preset(&mut current), 0);
    assert_eq!(current, 1);
    let mut far = 11;
    assert_eq!(drive_presets::next_preset(&mut far), 11);
    assert_eq!(far, 0);
    let mut far = 11;
    assert_eq!(drive_presets::prev_preset(&mut far), 11);
    assert_eq!(far, 10);
}

#[test]
fn drive_full_cycle_returns_to_start() {
    let mut current = 2;
    for _ in 0..drive_presets::preset_count() {
        drive_presets::next_preset(&mut current);
    }
    assert_eq!(current, 2);
}

#[test]
fn eq_preset_names_and_count() {
    assert_eq!(eq_presets::preset_count(), 7);
    let presets = eq_presets::factory_presets();
    assert_eq!(presets.len(), 7);
    assert_eq!(eq_presets::current_preset_name(0), "Init");
    assert_eq!(presets[0].category, "Default");
    assert_eq!(presets[0].values.len(), 41);
    assert_eq!(eq_presets::current_preset_name(1), "Vocal Presence");
    assert_eq!(presets[1].category, "Vocals");
    assert_eq!(presets[1].values.len(), 41);
    assert_eq!(eq_presets::current_preset_name(2), "Bass Scoop");
    assert_eq!(presets[2].category, "Mixing");
    assert_eq!(presets[2].values.len(), 41);
    assert_eq!(eq_presets::current_preset_name(3), "High Shelf Air");
    assert_eq!(presets[3].category, "Mixing");
    assert_eq!(presets[3].values.len(), 41);
    assert_eq!(eq_presets::current_preset_name(4), "Low Cut 80Hz");
    assert_eq!(presets[4].category, "Utility");
    assert_eq!(presets[4].values.len(), 41);
    assert_eq!(eq_presets::current_preset_name(5), "Mid Dip");
    assert_eq!(presets[5].category, "Mixing");
    assert_eq!(presets[5].values.len(), 41);
    assert_eq!(eq_presets::current_preset_name(6), "Telephone");
    assert_eq!(presets[6].category, "Creative");
    assert_eq!(presets[6].values.len(), 41);
    assert_eq!(eq_presets::current_preset_name(7), "Custom");
    assert_eq!(eq_presets::current_preset_name(usize::MAX), "Custom");
}

#[test]
fn eq_preset_values_are_normalized() {
    for preset in eq_presets::factory_presets() {
        for &(_, value) in &preset.values {
            assert!(value <= NORMALIZED_ONE);
        }
    }
    assert!(eq_presets::factory_presets()[6].values.contains(&("b1_freq", 3440)));
    assert!(eq_presets::factory_presets()[6].values.contains(&("b1_gain", 5000)));
    assert!(eq_presets::factory_presets()[6].values.contains(&("b1_q", 3260)));
}

#[test]
fn eq_next_and_prev_wrap_and_return_previous() {
    let mut current = 0;
    assert_eq!(eq_presets::prev_preset(&mut current), 0);
    assert_eq!(current, 6);
    assert_eq!(eq_presets::next_preset(&mut current), 6);
    assert_eq!(current, 0);
    assert_eq!(eq_presets::next_preset(&mut current), 0);
    assert_eq!(current, 1);
    let mut far = 12;
    assert_eq!(eq_presets::next_preset(&mut far), 12);
    assert_eq!(far, 6);
    let mut far = 12;
    assert_eq!(eq_presets::prev_preset(&mut far), 12);
    assert_eq!(far, 11);
}

#[test]
fn eq_full_cycle_returns_to_start() {
    let mut current = 2;
    for _ in 0..eq_presets::preset_count() {
        eq_presets::next_preset(&mut current);
    }
    assert_eq!(current, 2);
}

#[test]
fn limit_preset_names_and_count() {
    assert_eq!(limit_presets::preset_count(), 6);
    let presets = limit_presets::factory_presets();
    assert_eq!(presets.len(), 6);
    assert_eq!(limit_presets::current_preset_name(0), "Init");
    assert_eq!(presets[0].category, "Default");
    assert_eq!(presets[0].values.len(), 6);
    assert_eq!(limit_presets::current_preset_name(1), "Mastering Transparent");
    assert_eq!(presets[1].category, "Mastering");
    assert_eq!(presets[1].values.len(), 6);
    assert_eq!(limit_presets::current_preset_name(2), "Loud Master");
    assert_eq!(presets[2].category, "Mastering");
    assert_eq!(presets[2].values.len(), 6);
    assert_eq!(limit_presets::current_preset_name(3), "EDM Pump");
    assert_eq!(presets[3].category, "Creative");
    assert_eq!(presets[3].values.len(), 6);
    assert_eq!(limit_presets::current_preset_name(4), "Gentle Ceiling");
    assert_eq!(presets[4].category, "Mixing");
    assert_eq!(presets[4].values.len(), 6);
    assert_eq!(limit_presets::current_preset_name(5), "Broadcast");
    assert_eq!(presets[5].category, "Mastering");
    assert_eq!(presets[5].values.len(), 6);
    assert_eq!(limit_presets::current_preset_name(6), "Custom");
    assert_eq!(limit_presets::current_preset_name(usize::MAX), "Custom");
}

#[test]
fn limit_preset_values_are_normalized() {
    for preset in limit_presets::factory_presets() {
        for &(_, value) in &preset.values {
            assert!(value <= NORMALIZED_ONE);
        }
    }
    assert!(limit_presets::factory_presets()[5].values.contains(&("ceiling", 9170)));
    assert!(limit_presets::factory_presets()[5].values.contains(&("input_gain", 1670)));
    assert!(limit_presets::factory_presets()[5].values.contains(&("release", 4130)));
}

#[test]
fn limit_next_and_prev_wrap_and_return_previous() {
    let mut current = 0;
    assert_eq!(limit_presets::prev_preset(&mut current), 0);
    assert_eq!(current, 5);
    assert_eq!(limit_presets::next_preset(&mut current), 5);
    assert_eq!(current, 0);
    assert_eq!(limit_presets::next_preset(&mut current), 0);
    assert_eq!(current, 1);
    let mut far = 11;
    assert_eq!(limit_presets::next_preset(&mut far), 11);
    assert_eq!(far, 0);
    let mut far = 11;
    assert_eq!(limit_presets::prev_preset(&mut far), 11);
    assert_eq!(far, 10);
}

#[test]
fn limit_full_cycle_returns_to_start() {
    let mut current = 2;
    for _ in 0..limit_presets::preset_count() {
        limit_presets::next_preset(&mut current);
    }
    assert_eq!(current, 2);
}

#[test]
fn pump_preset_names_and_count() {
    assert_eq!(pump_presets::preset_count(), 6);
    let presets = pump_presets::factory_presets();
    assert_eq!(presets.len(), 6);
    assert_eq!(pump_presets::current_preset_name(0), "Init");
    assert_eq!(presets[0].category, "Default");
    assert_eq!(presets[0].values.len(), 6);
    assert_eq!(pump_presets::current_preset_name(1), "Sidechain Pump");
    assert_eq!(presets[1].category, "Creative");
    assert_eq!(presets[1].values.len(), 6);
    assert_eq!(pump_presets::current_preset_name(2), "Subtle Pulse");
    assert_eq!(presets[2].category, "Mixing");
    assert_eq!(presets[2].values.len(), 6);
    assert_eq!(pump_presets::current_preset_name(3), "Trance Gate");
    assert_eq!(presets[3].category, "Creative");
    assert_eq!(presets[3].values.len(), 6);
    assert_eq!(pump_presets::current_preset_name(4), "Half-Time Swell");
    assert_eq!(presets[4].category, "Creative");
    assert_eq!(presets[4].values.len(), 6);
    assert_eq!(pump_presets::current_preset_name(5), "Choppy Eighth");
    assert_eq!(presets[5].category, "Creative");
    assert_eq!(presets[5].values.len(), 6);
    assert_eq!(pump_presets::current_preset_name(6), "Custom");
    assert_eq!(pump_presets::current_preset_name(usize::MAX), "Custom");
}

#[test]
fn pump_preset_values_are_normalized() {
    for preset in pump_presets::factory_presets() {
        for &(_, value) in &preset.values {
            assert!(value <= NORMALIZED_ONE);
        }
    }
    assert!(pump_presets::factory_presets()[5].values.contains(&("depth", 7500)));
    assert!(pump_presets::factory_presets()[5].values.contains(&("rate", 4940)));
    assert!(pump_presets::factory_presets()[5].values.contains(&("smoothing", 1000)));
}

#[test]
fn pump_next_and_prev_wrap_and_return_previous() {
    let mut current = 0;
    assert_eq!(pump_presets::prev_preset(&mut current), 0);
    assert_eq!(current, 5);
    assert_eq!(pump_presets::next_preset(&mut current), 5);
    assert_eq!(current, 0);
    assert_eq!(pump_presets::next_preset(&mut current), 0);
    assert_eq!(current, 1);
    let mut far = 11;
    assert_eq!(pump_presets::next_preset(&mut far), 11);
    assert_eq!(far, 0);
    let mut far = 11;
    assert_eq!(pump_presets::prev_preset(&mut far), 11);
    assert_eq!(far, 10);
}

#[test]
fn pump_full_cycle_returns_to_start() {
    let mut current = 2;
    for _ in 0..pump_presets::preset_count() {
        pump_presets::next_preset(&mut current);
    }
    assert_eq!(current, 2);
}

#[test]
fn punch_preset_names_and_count() {
    assert_eq!(punch_presets::preset_count(), 6);
    let presets = punch_presets::factory_presets();
    assert_eq!(presets.len(), 6);
    assert_eq!(punch_presets::current_preset_name(0), "Init");
    assert_eq!(presets[0].category, "Default");
    assert_eq!(presets[0].values.len(), 5);
    assert_eq!(punch_presets::current_preset_name(1), "Drum Snap");
    assert_eq!(presets[1].category, "Drums");
    assert_eq!(presets[1].values.len(), 5);
    assert_eq!(punch_presets::current_preset_name(2), "Thicken Sustain");
    assert_eq!(presets[2].category, "Mixing");
    assert_eq!(presets[2].values.len(), 5);
    assert_eq!(punch_presets::current_preset_name(3), "Tame Transients");
    assert_eq!(presets[3].category, "Mixing");
    assert_eq!(presets[3].values.len(), 5);
    assert_eq!(punch_presets::current_preset_name(4), "Percussive Attack");
    assert_eq!(presets[4].category, "Drums");
    assert_eq!(presets[4].values.len(), 5);
    assert_eq!(punch_presets::current_preset_name(5), "Gentle Body");
    assert_eq!(presets[5].category, "Mixing");
    assert_eq!(presets[5].values.len(), 5);
    assert_eq!(punch_presets::current_preset_name(6), "Custom");
    assert_eq!(punch_presets::current_preset_name(usize::MAX), "Custom");
}

#[test]
fn punch_preset_values_are_normalized() {
    for preset in punch_presets::factory_presets() {
        for &(_, value) in &preset.values {
            assert!(value <= NORMALIZED_ONE);
        }
    }
    assert!(punch_presets::factory_presets()[5].values.contains(&("attack", 4000)));
    assert!(punch_presets::factory_presets()[5].values.contains(&("sustain", 6500)));
    assert!(punch_presets::factory_presets()[5].values.contains(&("speed", 10000)));
}

#[test]
fn punch_next_and_prev_wrap_and_return_previous() {
    let mut current = 0;
    assert_eq!(punch_presets::prev_preset(&mut current), 0);
    assert_eq!(current, 5);
    assert_eq!(punch_presets::next_preset(&mut current), 5);
    assert_eq!(current, 0);
    assert_eq!(punch_presets::next_preset(&mut current), 0);
    assert_eq!(current, 1);
    let mut far = 11;
    assert_eq!(punch_presets::next_preset(&mut far), 11);
    assert_eq!(far, 0);
    let mut far = 11;
    assert_eq!(punch_presets::prev_preset(&mut far), 11);
    assert_eq!(far, 10);
}

#[test]
fn punch_full_cycle_returns_to_start() {
    let mut current = 2;
    for _ in 0..punch_presets::preset_count() {
        punch_presets::next_preset(&mut current);
    }
    assert_eq!(current, 2);
}

#[test]
fn shift_preset_names_and_count() {
    assert_eq!(shift_presets::preset_count(), 7);
    let presets = shift_presets::factory_presets();
    assert_eq!(presets.len(), 7);
    assert_eq!(shift_presets::current_preset_name(0), "Init");
    assert_eq!(presets[0].category, "Default");
    assert_eq!(presets[0].values.len(), 6);
    assert_eq!(shift_presets::current_preset_name(1), "Octave Down");
    assert_eq!(presets[1].category, "Creative");
    assert_eq!(presets[1].values.len(), 6);
    assert_eq!(shift_presets::current_preset_name(2), "Fifth Up");
    assert_eq!(presets[2].category, "Creative");
    assert_eq!(presets[2].values.len(), 6);
    assert_eq!(shift_presets::current_preset_name(3), "Subtle Detune");
    assert_eq!(presets[3].category, "Mixing");
    assert_eq!(presets[3].values.len(), 6);
    assert_eq!(shift_presets::current_preset_name(4), "ADT Thicken");
    assert_eq!(presets[4].category, "Mixing");
    assert_eq!(presets[4].values.len(), 6);
    assert_eq!(shift_presets::current_preset_name(5), "Harmony Third");
    assert_eq!(presets[5].category, "Creative");
    assert_eq!(presets[5].values.len(), 6);
    assert_eq!(shift_presets::current_preset_name(6), "Chipmunk");
    assert_eq!(presets[6].category, "Creative");
    assert_eq!(presets[6].values.len(), 6);
    assert_eq!(shift_presets::current_preset_name(7), "Custom");
    assert_eq!(shift_presets::current_preset_name(usize::MAX), "Custom");
}

#[test]
fn shift_preset_values_are_normalized() {
    for preset in shift_presets::factory_presets() {
        for &(_, value) in &preset.values {
            assert!(value <= NORMALIZED_ONE);
        }
    }
    assert!(shift_presets::factory_presets()[6].values.contains(&("semitones", 7500)));
    assert!(shift_presets::factory_presets()[6].values.contains(&("cents", 5000)));
    assert!(shift_presets::factory_presets()[6].values.contains(&("detune", 0)));
}

#[test]
fn shift_next_and_prev_wrap_and_return_previous() {
    let mut current = 0;
    assert_eq!(shift_presets::prev_preset(&mut current), 0);
    assert_eq!(current, 6);
    assert_eq!(shift_presets::next_preset(&mut current), 6);
    assert_eq!(current, 0);
    assert_eq!(shift_presets::next_preset(&mut current), 0);
    assert_eq!(current, 1);
    let mut far = 12;
    assert_eq!(shift_presets::next_preset(&mut far), 12);
    assert_eq!(far, 6);
    let mut far = 12;
    assert_eq!(shift_presets::prev_preset(&mut far), 12);
    assert_eq!(far, 11);
}

#[test]
fn shift_full_cycle_returns_to_start() {
    let mut current = 2;
    for _ in 0..shift_presets::preset_count() {
        shift_presets::next_preset(&mut current);
    }
    assert_eq!(current, 2);
}

#[test]
fn synth_preset_names_and_count() {
    assert_eq!(synth_presets::preset_count(), 7);
    let presets = synth_presets::factory_presets();
    assert_eq!(presets.len(), 7);
    assert_eq!(synth_presets::current_preset_name(0), "Init");
    assert_eq!(presets[0].category, "Default");
    assert_eq!(presets[0].values.len(), 11);
    assert_eq!(synth_presets::current_preset_name(1), "Classic Saw Lead");
    assert_eq!(presets[1].category, "Lead");
    assert_eq!(presets[1].values.len(), 11);
    assert_eq!(synth_presets::current_preset_name(2), "Warm Pad");
    assert_eq!(presets[2].category, "Pad");
    assert_eq!(presets[2].values.len(), 11);
    assert_eq!(synth_presets::current_preset_name(3), "Pluck Bass");
    assert_eq!(presets[3].category, "Bass");
    assert_eq!(presets[3].values.len(), 11);
    assert_eq!(synth_presets::current_preset_name(4), "Sub Bass");
    assert_eq!(presets[4].category, "Bass");
    assert_eq!(presets[4].values.len(), 11);
    assert_eq!(synth_presets::current_preset_name(5), "Bright Arp");
    assert_eq!(presets[5].category, "Lead");
    assert_eq!(presets[5].values.len(), 11);
    assert_eq!(synth_presets::current_preset_name(6), "Thick Unison");
    assert_eq!(presets[6].category, "Lead");
    assert_eq!(presets[6].values.len(), 11);
    assert_eq!(synth_presets::current_preset_name(7), "Custom");
    assert_eq!(synth_presets::current_preset_name(usize::MAX), "Custom");
}

#[test]
fn synth_preset_values_are_normalized() {
    for preset in synth_presets::factory_presets() {
        for &(_, value) in &preset.values {
            assert!(value <= NORMALIZED_ONE);
        }
    }
    assert!(synth_presets::factory_presets()[6].values.contains(&("osc1_level", 10000)));
    assert!(synth_presets::factory_presets()[6].values.contains(&("osc1_detune", 0)));
    assert!(synth_presets::factory_presets()[6].values.contains(&("osc2_level", 10000)));
}

#[test]
fn synth_next_and_prev_wrap_and_return_previous() {
    let mut current = 0;
    assert_eq!(synth_presets::prev_preset(&mut current), 0);
    assert_eq!(current, 6);
    assert_eq!(synth_presets::next_preset(&mut current), 6);
    assert_eq!(current, 0);
    assert_eq!(synth_presets::next_preset(&mut current), 0);
    assert_eq!(current, 1);
    let mut far = 12;
    assert_eq!(synth_presets::next_preset(&mut far), 12);
    assert_eq!(far, 6);
    let mut far = 12;
    assert_eq!(synth_presets::prev_preset(&mut far), 12);
    assert_eq!(far, 11);
}

#[test]
fn synth_full_cycle_returns_to_start() {
    let mut current = 2;
    for _ in 0..synth_presets::preset_count() {
        synth_presets::next_preset(&mut current);
    }
    assert_eq!(current, 2);
}

