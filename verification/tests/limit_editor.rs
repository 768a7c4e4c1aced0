// Oasis Limit: parameter ids of presets and loading presets.
use oasis::limit::presets::factory_presets;
use oasis::limit::ui::{limit_param_target, preset_updates, LimitParam};

#[test]
fn ids_address_parameters() {
    assert_eq!(limit_param_target("ceiling"), Some(LimitParam::Ceiling));
    assert_eq!(limit_param_target("input_gain"), Some(LimitParam::InputGain));
    assert_eq!(limit_param_target("release"), Some(LimitParam::Release));
    assert_eq!(limit_param_target("mode"), Some(LimitParam::Mode));
    assert_eq!(limit_param_target("mix"), Some(LimitParam::Mix));
    assert_eq!(limit_param_target("output_gain"), Some(LimitParam::OutputGain));
    assert_eq!(limit_param_target("threshold"), None);
    assert_eq!(limit_param_target("Ceiling"), None);
    assert_eq!(limit_param_target(""), None);
}

#[test]
fn broadcast_preset_updates() {
    let presets = factory_presets();
    assert_eq!(presets[5].name, "Broadcast");
    let updates = preset_updates(&presets[5]);
    assert_eq!(
        updates,
        vec![
            (LimitParam::Ceiling, 9170),
            (LimitParam::InputGain, 1670),
            (LimitParam::Release, 4130),
            (LimitParam::Mode, 5000),
            (LimitParam::Mix, 10000),
            (LimitParam::OutputGain, 5000),
        ]
    );
}

#[test]
fn every_limit_preset_applies_every_entry() {
    for preset in factory_presets() {
        assert_eq!(preset_updates(&preset).len(), preset.values.len());
    }
}
