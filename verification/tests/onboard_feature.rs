use openhub::onboard_feature::{
    classify_onboard_error, onboard_state, ErrorType, Hidpp20Error, OnboardProfilesFeature,
    OnboardState, WriteError, GET_CURRENT_PROFILE, GET_DEVICE_MODE, GET_INFO,
    ONBOARD_PROFILES_ID, SET_CURRENT_PROFILE, SET_DEVICE_MODE,
};
use openhub::onboard_profiles::{parse_info, DeviceMode};

fn is_unsupported_0x8100(error: &WriteError) -> bool {
    matches!(
        error,
        WriteError::FeatureUnsupported { feature_hex } if *feature_hex == OnboardProfilesFeature::id()
    )
}

#[test]
fn a_rejected_function_reads_as_an_unsupported_feature() {
    for kind in [ErrorType::Unsupported, ErrorType::InvalidFunctionId] {
        let error = classify_onboard_error(&Hidpp20Error::Feature(kind));
        assert!(
            is_unsupported_0x8100(&error),
            "expected 0x8100 unsupported for {kind:?}, got {error:?}"
        );
    }
}

#[test]
fn an_undecodable_payload_reads_as_an_unsupported_feature() {
    let error = classify_onboard_error(&Hidpp20Error::UnsupportedResponse);
    assert!(
        is_unsupported_0x8100(&error),
        "expected 0x8100 unsupported, got {error:?}"
    );
}

#[test]
fn another_feature_error_stays_a_protocol_error() {
    let error = classify_onboard_error(&Hidpp20Error::Feature(ErrorType::Busy));

    assert!(
        matches!(error, WriteError::Hidpp(ref text) if text.contains("Busy")),
        "expected a protocol error naming Busy, got {error:?}"
    );
}

#[test]
fn a_forwarded_error_keeps_its_debug_text() {
    assert_eq!(
        classify_onboard_error(&Hidpp20Error::Feature(ErrorType::Busy)),
        WriteError::Hidpp(format!("{:?}", Hidpp20Error::Feature(ErrorType::Busy)))
    );
    assert_eq!(
        classify_onboard_error(&Hidpp20Error::Channel),
        WriteError::Hidpp("Channel".into())
    );
    for kind in [
        ErrorType::NoError,
        ErrorType::Unknown,
        ErrorType::InvalidArgument,
        ErrorType::OutOfRange,
        ErrorType::HardwareError,
        ErrorType::LogitechInternal,
        ErrorType::InvalidFeatureIndex,
        ErrorType::Busy,
    ] {
        let error = Hidpp20Error::Feature(kind);
        assert_eq!(
            classify_onboard_error(&error),
            WriteError::Hidpp(format!("{error:?}"))
        );
    }
}

#[test]
fn requests_name_the_function_and_its_parameters() {
    let feature = OnboardProfilesFeature::new(9);
    assert_eq!(feature.index, 9);
    assert_eq!(OnboardProfilesFeature::id(), ONBOARD_PROFILES_ID);
    assert_eq!(ONBOARD_PROFILES_ID, 0x8100);

    let call = feature.get_info_call();
    assert_eq!((call.function, call.params), (GET_INFO, [0, 0, 0]));
    let call = feature.get_device_mode_call();
    assert_eq!((call.function, call.params), (GET_DEVICE_MODE, [0, 0, 0]));
    let call = feature.get_current_profile_call();
    assert_eq!((call.function, call.params), (GET_CURRENT_PROFILE, [0, 0, 0]));
    let call = feature.set_device_mode_call(DeviceMode::Host);
    assert_eq!((call.function, call.params), (SET_DEVICE_MODE, [0x02, 0, 0]));
    let call = feature.set_current_profile_call(3);
    assert_eq!((call.function, call.params), (SET_CURRENT_PROFILE, [0, 3, 0]));
    assert_eq!(
        (GET_INFO, SET_DEVICE_MODE, GET_DEVICE_MODE, SET_CURRENT_PROFILE, GET_CURRENT_PROFILE),
        (0, 1, 2, 3, 4)
    );
}

#[test]
fn answers_decode_to_the_state_they_carry() {
    let feature = OnboardProfilesFeature::new(9);
    let payload = [
        0x01, 0x03, 0x01, 0x05, 0x01, 0x06, 0x10, 0x01, 0x00, 0x04, 0x00, 0, 0, 0, 0, 0,
    ];
    assert_eq!(feature.get_info(&payload), Ok(parse_info(&payload).unwrap()));
    assert_eq!(
        feature.get_info(&payload[..4]),
        Err(Hidpp20Error::UnsupportedResponse)
    );
    assert_eq!(feature.get_device_mode(&[0x01, 0, 0]), Some(DeviceMode::Onboard));
    assert_eq!(feature.get_device_mode(&[0x07]), None);
    assert_eq!(feature.get_current_profile(&[0x00, 0x02, 0x00]), 2);
}

#[test]
fn the_first_failed_read_decides_the_state() {
    let info = parse_info(&[0x01, 0x03, 0x01, 0x05, 0x01, 0x06, 0x10, 0x01, 0x00, 0x04, 0x00])
        .unwrap();
    assert_eq!(
        onboard_state(Ok(info), Ok(Some(DeviceMode::Host)), Ok(1)),
        Ok(OnboardState {
            info,
            mode: Some(DeviceMode::Host),
            current_profile: 1,
        })
    );
    assert_eq!(
        onboard_state(
            Ok(info),
            Err(Hidpp20Error::Feature(ErrorType::Busy)),
            Err(Hidpp20Error::Feature(ErrorType::Unsupported)),
        ),
        Err(WriteError::Hidpp("Feature(Busy)".into()))
    );
    assert_eq!(
        onboard_state(
            Err(Hidpp20Error::Feature(ErrorType::InvalidFunctionId)),
            Ok(None),
            Ok(1),
        ),
        Err(WriteError::FeatureUnsupported {
            feature_hex: 0x8100
        })
    );
}
