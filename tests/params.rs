use beanstortion::dist::DistTypes;
use beanstortion::params::{all_params, DefaultValue, ParamKey, Smoothing, CLIPPING_CEILING_DB, SMOOTHING_MS};

#[test]
fn stored_ids_are_stable() {
    let ids: Vec<String> = all_params().iter().map(|k| k.id()).collect();
    assert_eq!(ids, vec!["clip", "gain", "distType", "mix", "autogain"]);
}

#[test]
fn stored_ids_are_distinct() {
    let keys = all_params();
    for (i, a) in keys.iter().enumerate() {
        for b in keys.iter().skip(i + 1) {
            assert_ne!(a.id(), b.id());
        }
    }
}

#[test]
fn display_names() {
    assert_eq!(ParamKey::Clip.display_name(), "clip");
    assert_eq!(ParamKey::Gain.display_name(), "Gain");
    assert_eq!(ParamKey::DistType.display_name(), "Distortion Type");
    assert_eq!(ParamKey::Mix.display_name(), "Mix");
    assert_eq!(ParamKey::AutoGain.display_name(), "Auto Gain");
}

#[test]
fn gain_ranges_in_decibels() {
    let clip = ParamKey::Clip.gain_range().unwrap();
    assert_eq!((clip.min_db, clip.max_db, clip.default_db), (-10, 40, 0));
    let gain = ParamKey::Gain.gain_range().unwrap();
    assert_eq!((gain.min_db, gain.max_db, gain.default_db), (-60, 5, 0));
    assert_eq!(ParamKey::Mix.gain_range(), None);
    assert_eq!(ParamKey::DistType.gain_range(), None);
    assert_eq!(ParamKey::AutoGain.gain_range(), None);
}

#[test]
fn gains_and_mix_glide_choices_switch() {
    assert_eq!(ParamKey::Clip.smoothing(), Smoothing::Logarithmic { millis: 50 });
    assert_eq!(ParamKey::Gain.smoothing(), Smoothing::Logarithmic { millis: SMOOTHING_MS });
    assert_eq!(ParamKey::DistType.smoothing(), Smoothing::Off);
    assert_eq!(ParamKey::Mix.smoothing(), Smoothing::Linear { millis: 50 });
    assert_eq!(ParamKey::AutoGain.smoothing(), Smoothing::Off);
}

#[test]
fn log_smoothing_only_on_positive_ranges() {
    for k in all_params() {
        if let Smoothing::Logarithmic { .. } = k.smoothing() {
            assert!(k.gain_range().is_some());
        }
    }
}

#[test]
fn ceiling_is_unity() {
    assert_eq!(CLIPPING_CEILING_DB, 0);
}

#[test]
fn every_control_has_its_default() {
    assert_eq!(ParamKey::Clip.default_value(), DefaultValue::Decibels(0));
    assert_eq!(ParamKey::Gain.default_value(), DefaultValue::Decibels(0));
    assert_eq!(ParamKey::DistType.default_value(), DefaultValue::Variant(DistTypes::HardClip));
    assert_eq!(ParamKey::Mix.default_value(), DefaultValue::WetPercent(100));
    assert_eq!(ParamKey::AutoGain.default_value(), DefaultValue::Toggle(false));
}

#[test]
fn gain_defaults_match_their_ranges() {
    for k in [ParamKey::Clip, ParamKey::Gain] {
        let range = k.gain_range().unwrap();
        assert_eq!(k.default_value(), DefaultValue::Decibels(range.default_db));
    }
}
