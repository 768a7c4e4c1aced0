// Oasis EQ: parameter ids of presets, band defaults and loading presets.
use oasis::eq::params::{default_filter_type, FilterType, EQ_BAND_COUNT};
use oasis::eq::presets::factory_presets;
use oasis::eq::ui::{band_param_target, preset_updates, BandField, EqParam};

#[test]
fn band_ids_address_band_parameters() {
    assert_eq!(band_param_target("output_gain"), Some(EqParam::OutputGain));
    assert_eq!(band_param_target("b1_freq"), Some(EqParam::Band(0, BandField::Freq)));
    assert_eq!(band_param_target("b3_gain"), Some(EqParam::Band(2, BandField::Gain)));
    assert_eq!(band_param_target("b5_q"), Some(EqParam::Band(4, BandField::Q)));
    assert_eq!(band_param_target("b7_type"), Some(EqParam::Band(6, BandField::FilterType)));
    assert_eq!(band_param_target("b8_on"), Some(EqParam::Band(7, BandField::Enabled)));
}

#[test]
fn unknown_ids_address_nothing() {
    assert_eq!(band_param_target(""), None);
    assert_eq!(band_param_target("b1_"), None);
    assert_eq!(band_param_target("b0_freq"), None);
    assert_eq!(band_param_target("b9_freq"), None);
    assert_eq!(band_param_target("c1_freq"), None);
    assert_eq!(band_param_target("b1_frequency"), None);
    assert_eq!(band_param_target("output"), None);
}

#[test]
fn separator_is_not_checked() {
    assert_eq!(band_param_target("b2-gain"), Some(EqParam::Band(1, BandField::Gain)));
}

#[test]
fn default_filter_types() {
    assert_eq!(default_filter_type(0), FilterType::LowCut);
    for i in 1..EQ_BAND_COUNT - 1 {
        assert_eq!(default_filter_type(i), FilterType::Bell);
    }
    assert_eq!(default_filter_type(7), FilterType::HighCut);
}

#[test]
fn loading_a_preset_sets_every_entry() {
    for preset in factory_presets() {
        let updates = preset_updates(&preset);
        assert_eq!(updates.len(), preset.values.len());
        for (update, &(id, value)) in updates.iter().zip(preset.values.iter()) {
            assert_eq!(Some(update.0), band_param_target(id));
            assert_eq!(update.1, value);
        }
    }
}

#[test]
fn telephone_preset_cuts_lows_and_highs() {
    let presets = factory_presets();
    let telephone = &presets[6];
    assert_eq!(telephone.name, "Telephone");
    let updates = preset_updates(telephone);
    assert_eq!(updates[0], (EqParam::Band(0, BandField::Freq), 3440));
}
