use openhub::app_assets::{AppAssets, AssetOrigin, LOGO};
use openhub::device_art::{ArtRegistry, DeviceArt, DeviceArtMatch, EmbeddedArt};

const G703: &str = "device-art/logitech-g703.svg";
const OUTLINE: &str = "device-art/generic-mouse.svg";

fn registry() -> ArtRegistry {
    ArtRegistry::new(
        vec![
            DeviceArtMatch {
                name: "Logitech G703 Hero".into(),
                usb_ids: vec![(0x046d, 0xc090), (0x046d, 0x4086)],
                art: 0,
            },
            DeviceArtMatch {
                name: "Someone else's mouse".into(),
                usb_ids: vec![(0x1234, 0x4087)],
                art: 1,
            },
            DeviceArtMatch {
                name: "Logitech G703 (duplicate entry)".into(),
                usb_ids: vec![(0x046d, 0x4086)],
                art: 1,
            },
        ],
        vec![
            DeviceArt {
                resource: G703.into(),
                buttons: vec![0, 1, 2, 3, 4, 5],
                leds: vec![0, 1],
            },
            DeviceArt {
                resource: OUTLINE.into(),
                buttons: vec![0, 1, 2],
                leds: vec![],
            },
        ],
        vec![
            EmbeddedArt {
                resource: G703.into(),
                bytes: b"<svg g703/>".to_vec(),
            },
            EmbeddedArt {
                resource: OUTLINE.into(),
                bytes: b"<svg outline/>".to_vec(),
            },
        ],
        1,
    )
    .expect("every entry points at a drawing")
}

#[test]
fn the_g703_resolves_from_either_of_its_product_ids() {
    let registry = registry();
    for product in [0xc090_u16, 0x4086] {
        let (entry, art) = registry
            .art_for_products(&[product])
            .expect("the G703 Hero is in the registry");
        assert_eq!(entry.name, "Logitech G703 Hero");
        assert_eq!(art.resource, G703);
        assert_eq!(art.buttons.len(), 6, "the G703 drawing has six buttons");
        assert_eq!(art.leds.len(), 2, "the G703 has a logo and a DPI strip");
    }
}

#[test]
fn an_unknown_product_id_has_no_entry_but_a_fallback() {
    let registry = registry();
    assert!(registry.art_for_products(&[0xffff]).is_none());
    assert!(!registry.fallback_art().buttons.is_empty());
    assert!(registry.art_bytes(&registry.fallback_art().resource).is_some());
}

#[test]
fn another_vendors_id_and_a_zero_id_select_nothing() {
    let registry = registry();
    assert!(registry.art_for_products(&[0x4087]).is_none());
    assert!(registry.art_for_products(&[0, 0]).is_none());
    assert!(registry.art_for_products(&[]).is_none());
}

#[test]
fn every_reported_id_is_tried_and_the_first_section_wins() {
    let registry = registry();
    let (entry, _) = registry
        .art_for_products(&[0x0000, 0xffff, 0x4086])
        .expect("the receiver id selects the G703");
    assert_eq!(entry.name, "Logitech G703 Hero");
}

#[test]
fn a_section_pointing_past_the_drawings_is_refused() {
    let drawing = DeviceArt {
        resource: OUTLINE.into(),
        buttons: vec![],
        leds: vec![],
    };
    let broken = ArtRegistry::new(
        vec![DeviceArtMatch {
            name: "Typo".into(),
            usb_ids: vec![(0x046d, 0x4086)],
            art: 3,
        }],
        vec![drawing.clone()],
        vec![],
        0,
    );
    assert!(broken.is_none());
    assert!(ArtRegistry::new(vec![], vec![drawing], vec![], 1).is_none());
}

#[test]
fn embedded_bytes_are_found_by_their_path() {
    let registry = registry();
    assert_eq!(registry.art_bytes(G703), Some(&b"<svg g703/>"[..]));
    assert_eq!(registry.art_bytes("device-art/missing.svg"), None);
}

#[test]
fn the_logo_comes_first_then_the_drawings() {
    let registry = registry();
    let assets = AppAssets;
    assert_eq!(assets.origin(LOGO, &registry), AssetOrigin::Logo);
    assert_eq!(
        assets.origin(G703, &registry),
        AssetOrigin::DeviceArt(&b"<svg g703/>"[..])
    );
    assert_eq!(
        assets.origin("icons/copy.svg", &registry),
        AssetOrigin::Elsewhere
    );
}

#[test]
fn a_drawing_without_embedded_bytes_is_refused() {
    let drawing = DeviceArt {
        resource: OUTLINE.into(),
        buttons: vec![0],
        leds: vec![],
    };
    let empty = ArtRegistry::new(
        vec![],
        vec![drawing.clone()],
        vec![EmbeddedArt {
            resource: OUTLINE.into(),
            bytes: vec![],
        }],
        0,
    );
    assert!(empty.is_none());
    let missing = ArtRegistry::new(vec![], vec![drawing.clone()], vec![], 0);
    assert!(missing.is_none());
    let whole = ArtRegistry::new(
        vec![],
        vec![drawing],
        vec![EmbeddedArt {
            resource: OUTLINE.into(),
            bytes: b"<svg/>".to_vec(),
        }],
        0,
    );
    assert!(whole.is_some());
}

#[test]
fn every_registry_entry_resolves_to_embedded_art() {
    let registry = registry();
    assert!(!registry.entries().is_empty());
    for entry in registry.entries() {
        let art = registry
            .drawing(entry.art)
            .unwrap_or_else(|| panic!("{} points outside the drawings", entry.name));
        assert!(
            registry
                .art_bytes(&art.resource)
                .is_some_and(|bytes| !bytes.is_empty()),
            "{} resolves to {}, which is not embedded",
            entry.name,
            art.resource
        );
        assert!(!entry.usb_ids.is_empty(), "{} matches nothing", entry.name);
    }
}
