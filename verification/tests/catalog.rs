use openhub::models::catalog::{model_for_hidpp_id, model_for_usb_id, models};
use openhub::models::slot::SlotId;

#[test]
fn g703_resolves_from_both_transports() {
    let wireless = model_for_hidpp_id(0x4086).expect("wireless id is known");
    let wired = model_for_usb_id(0xc090).expect("wired id is known");

    assert_eq!(wireless.id, "g703_hero");
    assert_eq!(wired.id, wireless.id);
}

#[test]
fn g703_slots_carry_the_captured_evdev_codes() {
    let model = model_for_hidpp_id(0x4086).unwrap();
    let codes: Vec<(SlotId, u16)> = model.slots.iter().map(|s| (s.id, s.evdev_code)).collect();

    assert_eq!(
        codes,
        vec![
            (SlotId::G1, 272),
            (SlotId::G2, 273),
            (SlotId::G3, 274),
            (SlotId::G4, 275),
            (SlotId::G5, 276),
            (SlotId::G6, 279),
        ]
    );
}

#[test]
fn an_unknown_id_resolves_to_nothing() {
    assert!(model_for_hidpp_id(0xffff).is_none());
    assert!(model_for_usb_id(0xffff).is_none());
}

#[test]
fn the_two_id_kinds_are_not_interchangeable() {
    assert!(model_for_hidpp_id(0xc090).is_none());
    assert!(model_for_usb_id(0x4086).is_none());
}

#[test]
fn the_g703_entry_is_complete() {
    let table = models();
    assert_eq!(table.len(), 1);
    let g703 = &table[0];
    assert_eq!(g703.display_name, "G703 LIGHTSPEED HERO");
    assert_eq!(g703.dpi_range, (100, 25600));
    assert_eq!(g703.onboard_profile_count, 5);
    assert_eq!(g703.slots[5].label, "Behind the wheel");
}
