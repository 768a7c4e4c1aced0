// The synth voice: note and envelope-stage changes.
use oasis::synth::voice::{EnvStage, VoiceState};

#[test]
fn new_voice_is_silent() {
    let voice = VoiceState::new();
    assert_eq!(voice.current_note, None);
    assert!(!voice.gate);
    assert_eq!(voice.env_stage, EnvStage::Idle);
    assert!(!voice.is_active());
}

#[test]
fn note_on_starts_attack() {
    let mut voice = VoiceState::new();
    voice.note_on(60);
    assert_eq!(voice.current_note, Some(60));
    assert!(voice.gate);
    assert_eq!(voice.env_stage, EnvStage::Attack);
    assert!(voice.is_active());
}

#[test]
fn note_off_of_other_note_is_ignored() {
    let mut voice = VoiceState::new();
    voice.note_on(60);
    voice.note_off(61);
    assert_eq!(voice.env_stage, EnvStage::Attack);
    assert!(voice.gate);
}

#[test]
fn full_note_lifecycle() {
    let mut voice = VoiceState::new();
    voice.note_on(64);
    voice.stage_done();
    assert_eq!(voice.env_stage, EnvStage::Decay);
    voice.stage_done();
    assert_eq!(voice.env_stage, EnvStage::Sustain);
    voice.stage_done();
    assert_eq!(voice.env_stage, EnvStage::Sustain);
    voice.note_off(64);
    assert_eq!(voice.env_stage, EnvStage::Release);
    assert!(!voice.gate);
    assert_eq!(voice.current_note, Some(64));
    voice.stage_done();
    assert_eq!(voice.env_stage, EnvStage::Idle);
    assert_eq!(voice.current_note, None);
    assert!(!voice.is_active());
}

#[test]
fn reset_silences() {
    let mut voice = VoiceState::new();
    voice.note_on(10);
    voice.reset();
    assert_eq!(voice, VoiceState::new());
}
