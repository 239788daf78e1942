use openhub::button::ButtonId;
use openhub::geometry::{
    asset_has_button_labels, control_for, group_navigation, map_slot_name, MouseControlId,
    ResolvedAsset,
};

#[test]
fn thumbwheel_metadata_maps_to_one_rotation_control() {
    assert_eq!(
        map_slot_name("SLOT_NAME_THUMBWHEEL"),
        Some(MouseControlId::ThumbwheelRotation)
    );
}

#[test]
fn dpi_slot_names_map_to_dpi_toggle_button() {
    assert_eq!(
        map_slot_name("SLOT_NAME_MODESHIFT_BUTTON"),
        Some(MouseControlId::Button(ButtonId::DpiToggle))
    );
    assert_eq!(
        map_slot_name("SLOT_NAME_DPI_BUTTON"),
        Some(MouseControlId::Button(ButtonId::DpiToggle))
    );
}

#[test]
fn wheel_tilt_slot_names_map_to_their_own_controls() {
    for name in ["SLOT_NAME_LEFT_SCROLL_BUTTON", "SLOT_NAME_SCROLL_LEFT"] {
        assert_eq!(
            map_slot_name(name),
            Some(MouseControlId::Button(ButtonId::WheelTiltLeft))
        );
    }
    for name in ["SLOT_NAME_RIGHT_SCROLL_BUTTON", "SLOT_NAME_SCROLL_RIGHT"] {
        assert_eq!(
            map_slot_name(name),
            Some(MouseControlId::Button(ButtonId::WheelTiltRight))
        );
    }
}

#[test]
fn the_haptic_panel_is_named_after_its_default_assignment() {
    assert_eq!(
        map_slot_name("ASSIGNMENT_NAME_SHOW_RADIAL_MENU"),
        Some(MouseControlId::Button(ButtonId::HapticPanel))
    );
    assert_eq!(map_slot_name("SLOT_NAME_SOMETHING_NEW"), None);
    assert_eq!(map_slot_name(""), None);
}

#[test]
fn a_drawing_names_six_buttons_in_enumeration_order() {
    let expected = [
        ButtonId::LeftClick,
        ButtonId::RightClick,
        ButtonId::MiddleClick,
        ButtonId::Back,
        ButtonId::Forward,
        ButtonId::DpiToggle,
    ];
    for (index, button) in expected.iter().enumerate() {
        assert_eq!(
            control_for(index as u32),
            Some(MouseControlId::Button(*button))
        );
    }
    assert_eq!(control_for(6), None);
    assert_eq!(control_for(u32::MAX), None);
}

#[test]
fn an_asset_with_a_nameable_marker_reserves_a_gutter() {
    let mouse = ResolvedAsset {
        art_buttons: Some(vec![9, 3]),
        slot_names: vec![],
    };
    assert!(asset_has_button_labels(&mouse));

    let beyond_the_order = ResolvedAsset {
        art_buttons: Some(vec![6, 7]),
        slot_names: vec!["SLOT_NAME_BACK_BUTTON".into()],
    };
    assert!(!asset_has_button_labels(&beyond_the_order));

    let depot_mouse = ResolvedAsset {
        art_buttons: None,
        slot_names: vec!["SLOT_NAME_KEYBOARD_F1".into(), "SLOT_NAME_BACK_BUTTON".into()],
    };
    assert!(asset_has_button_labels(&depot_mouse));

    let keyboard = ResolvedAsset {
        art_buttons: None,
        slot_names: vec!["SLOT_NAME_KEYBOARD_F1".into()],
    };
    assert!(!asset_has_button_labels(&keyboard));
}

#[test]
fn navigation_labels_stay_together_when_haptic_marker_sits_between() {
    let ids = [
        MouseControlId::Button(ButtonId::Forward),
        MouseControlId::Button(ButtonId::HapticPanel),
        MouseControlId::Button(ButtonId::Back),
    ];
    let mut order = vec![0, 1, 2];
    assert_eq!(group_navigation(&mut order, &ids), Some((0, 2)));
    assert_eq!(order, vec![0, 2, 1]);

    let mut adjacent = vec![2, 0, 1];
    assert_eq!(group_navigation(&mut adjacent, &ids), Some((2, 0)));
    assert_eq!(adjacent, vec![2, 0, 1]);

    let mut alone = vec![1, 2];
    assert_eq!(group_navigation(&mut alone, &ids), None);
    assert_eq!(alone, vec![1, 2]);
}
