//! Where the settings app's assets come from: its embedded logo, the
//! device drawings, and after those the shared icon sources.

use vstd::prelude::*;

use crate::device_art::{first_embedded, ArtRegistry};
use crate::text::equals;

verus! {

/// Asset path the app logo is served on.
pub const LOGO: &'static str = "openlogi.png";

/// Which source serves an asset path.
#[derive(Debug, PartialEq, Eq)]
pub enum AssetOrigin<'a> {
    /// The embedded app logo.
    Logo,
    /// A device drawing's embedded bytes.
    DeviceArt(&'a [u8]),
    /// Neither: the shared ring glyphs, then the bundled icon set, decide.
    Elsewhere,
}

/// The app's asset source: the logo first, then the device drawings, then
/// the shared sources.
pub struct AppAssets;

impl AppAssets {
    /// Which source serves `path`.
    pub fn origin<'a>(&self, path: &str, art: &'a ArtRegistry) -> (origin: AssetOrigin<'a>)
        ensures
            path@ == LOGO@ ==> origin == AssetOrigin::Logo,
            path@ != LOGO@ ==> match origin {
                AssetOrigin::Logo => false,
                AssetOrigin::DeviceArt(bytes) => exists|i: int|
                    first_embedded(art.embedded_seq(), path@, i) && bytes@
                        == art.embedded_seq()[i].bytes@,
                AssetOrigin::Elsewhere => forall|j: int|
                    0 <= j < art.embedded_seq().len() ==> (#[trigger] art.embedded_seq()[j]).resource@
                        != path@,
            },
    {
        if equals(path, LOGO) {
            return AssetOrigin::Logo;
        }
        match art.art_bytes(path) {
            Some(bytes) => AssetOrigin::DeviceArt(bytes),
            None => AssetOrigin::Elsewhere,
        }
    }
}

} // verus!
