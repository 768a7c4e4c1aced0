// The note and envelope-stage state of the monophonic synth voice: which note
// sounds, whether its key is held, and which stage of the ADSR envelope runs.
use vstd::prelude::*;

verus! {

/// A stage of the ADSR envelope.
#[derive(Clone, Copy, Debug, PartialEq, Eq, Structural)]
pub enum EnvStage {
    Idle,
    Attack,
    Decay,
    Sustain,
    Release,
}

/// The note state of the voice.
#[derive(Clone, Copy, Debug, PartialEq, Eq, Structural)]
pub struct VoiceState {
    /// The MIDI note that sounds, if any.
    pub current_note: Option<u8>,
    /// Whether the key of that note is held down.
    pub gate: bool,
    /// The running envelope stage.
    pub env_stage: EnvStage,
}

/// A silent voice.
pub open spec fn silent_voice() -> VoiceState {
    VoiceState { current_note: None, gate: false, env_stage: EnvStage::Idle }
}

/// The voice after a note-on event for `note`: that note sounds, its key is
/// held and the attack starts.
pub open spec fn after_note_on(voice: VoiceState, note: u8) -> VoiceState {
    VoiceState { current_note: Some(note), gate: true, env_stage: EnvStage::Attack }
}

/// The voice after a note-off event for `note`: the release starts if `note`
/// is the sounding note; any other note-off is ignored.
pub open spec fn after_note_off(voice: VoiceState, note: u8) -> VoiceState {
    if voice.current_note == Some(note) {
        VoiceState { gate: false, env_stage: EnvStage::Release, ..voice }
    } else {
        voice
    }
}

/// The voice after its envelope reached the target of the running stage:
/// attack gives way to decay, decay to sustain, and a finished release
/// silences the voice. Sustain and idle have no target to reach.
pub open spec fn after_stage_done(voice: VoiceState) -> VoiceState {
    match voice.env_stage {
        EnvStage::Attack => VoiceState { env_stage: EnvStage::Decay, ..voice },
        EnvStage::Decay => VoiceState { env_stage: EnvStage::Sustain, ..voice },
        EnvStage::Release => VoiceState { current_note: None, env_stage: EnvStage::Idle, ..voice },
        _ => voice,
    }
}

impl VoiceState {
    /// A silent voice.
    pub fn new() -> (voice: Self)
        ensures
            voice == silent_voice(),
    {
        VoiceState { current_note: None, gate: false, env_stage: EnvStage::Idle }
    }

    /// Silences the voice at once.
    pub fn reset(&mut self)
        ensures
            *final(self) == silent_voice(),
    {
        self.current_note = None;
        self.gate = false;
        self.env_stage = EnvStage::Idle;
    }

    /// Starts `note`.
    pub fn note_on(&mut self, note: u8)
        ensures
            *final(self) == after_note_on(*old(self), note),
    {
        self.current_note = Some(note);
        self.gate = true;
        self.env_stage = EnvStage::Attack;
    }

    /// Releases `note` if it is the sounding note.
    pub fn note_off(&mut self, note: u8)
        ensures
            *final(self) == after_note_off(*old(self), note),
    {
        let sounding = match self.current_note {
            Some(current) => current == note,
            None => false,
        };
        if sounding {
            self.gate = false;
            self.env_stage = EnvStage::Release;
        }
    }

    /// Moves on from a stage whose target the envelope has reached.
    pub fn stage_done(&mut self)
        ensures
            *final(self) == after_stage_done(*old(self)),
    {
        match self.env_stage {
            EnvStage::Attack => {
                self.env_stage = EnvStage::Decay;
            },
            EnvStage::Decay => {
                self.env_stage = EnvStage::Sustain;
            },
            EnvStage::Release => {
                self.env_stage = EnvStage::Idle;
                self.current_note = None;
            },
            _ => {},
        }
    }

    /// Whether the voice makes sound: every stage but idle does.
    pub fn is_active(&self) -> (active: bool)
        ensures
            active == (self.env_stage != EnvStage::Idle),
    {
        match self.env_stage {
            EnvStage::Idle => false,
            _ => true,
        }
    }
}

/// Releasing the note just started begins its release; releasing any other
/// note leaves the voice as the note-on left it.
pub proof fn law_note_off_releases_only_sounding_note(voice: VoiceState, note: u8, other: u8)
    requires
        other != note,
    ensures
        after_note_off(after_note_on(voice, note), note).env_stage == EnvStage::Release,
        !after_note_off(after_note_on(voice, note), note).gate,
        after_note_off(after_note_on(voice, note), note).current_note == Some(note),
        after_note_off(after_note_on(voice, note), other) == after_note_on(voice, note),
{
}

/// A note-off for the sounding note starts the release from whatever stage
/// runs (attack, decay, sustain or release) and lets go of the key; the note
/// keeps sounding through the release. A note-off for any other note changes
/// nothing.
pub proof fn law_note_off_releases_in_every_stage(voice: VoiceState, note: u8)
    ensures
        voice.current_note == Some(note) ==> {
            &&& after_note_off(voice, note).env_stage == EnvStage::Release
            &&& !after_note_off(voice, note).gate
            &&& after_note_off(voice, note).current_note == Some(note)
        },
        voice.current_note != Some(note) ==> after_note_off(voice, note) == voice,
{
}

/// From a note-on, the attack, decay, key release and end of release bring
/// the voice back to silence, and each earlier step leaves it active.
pub proof fn law_played_note_ends_silent(voice: VoiceState, note: u8)
    ensures
        ({
            let attack = after_note_on(voice, note);
            let decay = after_stage_done(attack);
            let sustain = after_stage_done(decay);
            let release = after_note_off(sustain, note);
            &&& attack.env_stage == EnvStage::Attack
            &&& attack.gate
            &&& attack.current_note == Some(note)
            &&& decay.env_stage == EnvStage::Decay
            &&& sustain.env_stage == EnvStage::Sustain
            &&& after_stage_done(sustain) == sustain
            &&& release.env_stage == EnvStage::Release
            &&& after_stage_done(release) == silent_voice()
        }),
{
}

} // verus!
