use openhub::diag_onboard::{
    cross_check, describe_mode, is_expected_absence, is_failed_read, resolve_model,
};
use openhub::models::catalog::model_for_hidpp_id;
use openhub::onboard_feature::WriteError;
use openhub::onboard_profiles::DeviceMode;

#[test]
fn resolves_the_g703_from_its_wireless_wpid() {
    let model = resolve_model(&[0x4086]).expect("the G703 is in the table");

    assert_eq!(model.id, "g703_hero");
}

#[test]
fn resolves_the_g703_from_its_wired_product_id() {
    let model = resolve_model(&[0xc090]).expect("the G703 is in the table");

    assert_eq!(model.id, "g703_hero");
}

#[test]
fn skips_ids_the_table_does_not_know() {
    let model = resolve_model(&[0xffff, 0x4086]).expect("the G703 is in the table");

    assert_eq!(model.id, "g703_hero");
}

#[test]
fn an_entirely_unknown_device_resolves_to_nothing() {
    assert!(resolve_model(&[0xffff]).is_none());
    assert!(resolve_model(&[]).is_none());
}

#[test]
fn every_mode_reads_as_a_sentence() {
    assert_eq!(
        describe_mode(Some(DeviceMode::Onboard)),
        "Onboard (the device runs its own stored profile)"
    );
    assert_eq!(
        describe_mode(Some(DeviceMode::Host)),
        "Host (software drives the device)"
    );
    assert_eq!(
        describe_mode(None),
        "unknown — the device reported a mode value this build does not know"
    );
}

#[test]
fn only_a_missing_0x8100_is_an_expected_answer() {
    assert!(is_expected_absence(&WriteError::FeatureUnsupported {
        feature_hex: 0x8100
    }));
    assert!(!is_expected_absence(&WriteError::FeatureUnsupported {
        feature_hex: 0x1b04
    }));
    assert!(!is_expected_absence(&WriteError::DeviceUnreachable { index: 1 }));
    assert!(!is_expected_absence(&WriteError::Hidpp("Feature(Busy)".into())));
}

#[test]
fn zero_buttons_is_a_failed_read() {
    assert!(is_failed_read(0));
    assert!(!is_failed_read(6));
}

#[test]
fn the_device_is_held_against_its_table_entry() {
    let g703 = model_for_hidpp_id(0x4086).unwrap();
    let agreeing = cross_check(&g703, 6, 5);
    assert!(agreeing.buttons_match && agreeing.profiles_match);
    assert_eq!(agreeing.table_buttons, 6);
    assert_eq!(agreeing.table_profiles, 5);

    let disagreeing = cross_check(&g703, 7, 3);
    assert!(!disagreeing.buttons_match);
    assert!(!disagreeing.profiles_match);
}
