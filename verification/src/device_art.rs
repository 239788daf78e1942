//! The device-art registry: which drawing a connected device gets, and which
//! embedded bytes serve it.
//!
//! The registry is keyed by USB vendor/product id. A HID++ device reports one
//! product id per transport it supports (wired USB, a receiver, Bluetooth),
//! which is why a lookup takes several and matches on any of them: a G703
//! Hero plugged in is `c090`, and the same mouse on its receiver is `4086`.
//! The drawings' coordinates belong to the renderer; what is kept here is
//! what the lookup reads.

use vstd::prelude::*;

use crate::hook::LOGITECH_VENDOR_ID;
use crate::text::equals;

verus! {

/// One drawing: the asset path its bytes are served on, and the device's own
/// numbers for the buttons and lit zones measured in it.
#[derive(Clone, Debug, PartialEq, Eq)]
pub struct DeviceArt {
    /// Asset path the drawing's bytes are served on.
    pub resource: String,
    /// The `N` of each `buttonN`, in device numbering order.
    pub buttons: Vec<u32>,
    /// The `N` of each `ledN`: independently tintable lit zones.
    pub leds: Vec<u32>,
}

/// One registry section: a product name and the ids that select it.
#[derive(Clone, Debug, PartialEq, Eq)]
pub struct DeviceArtMatch {
    /// The product name the registry lists the device under.
    pub name: String,
    /// `(vendor, product)` pairs that select this entry.
    pub usb_ids: Vec<(u16, u16)>,
    /// Index of the entry's drawing.
    pub art: usize,
}

/// The bytes embedded for one asset path.
#[derive(Clone, Debug, PartialEq, Eq)]
pub struct EmbeddedArt {
    /// The asset path.
    pub resource: String,
    /// The drawing's bytes.
    pub bytes: Vec<u8>,
}

/// The registry: its sections in order, the drawings they point at, the
/// embedded bytes, and the drawing for a device with no section.
pub struct ArtRegistry {
    matches: Vec<DeviceArtMatch>,
    drawings: Vec<DeviceArt>,
    embedded: Vec<EmbeddedArt>,
    fallback: usize,
}

/// Whether every section points at a drawing and so does the fallback.
pub open spec fn points_inside(matches: Seq<DeviceArtMatch>, drawings: nat, fallback: usize) -> bool {
    &&& fallback < drawings
    &&& forall|i: int| 0 <= i < matches.len() ==> (#[trigger] matches[i]).art < drawings
}

/// Whether a section selects a device that reports `products`: one of its
/// Logitech ids is among them. A zero id is no id.
pub open spec fn selects(usb_ids: Seq<(u16, u16)>, products: Seq<u16>) -> bool {
    exists|k: int, p: int|
        0 <= k < usb_ids.len() && 0 <= p < products.len() && (#[trigger] usb_ids[k]).0
            == LOGITECH_VENDOR_ID && usb_ids[k].1 != 0 && usb_ids[k].1 == #[trigger] products[p]
}

/// Whether section `i` is the first that selects `products`.
pub open spec fn first_selecting(matches: Seq<DeviceArtMatch>, products: Seq<u16>, i: int) -> bool {
    &&& 0 <= i < matches.len()
    &&& selects(matches[i].usb_ids@, products)
    &&& forall|j: int| 0 <= j < i ==> !selects((#[trigger] matches[j]).usb_ids@, products)
}

/// Whether entry `i` is the first embedded under `resource`.
pub open spec fn first_embedded(embedded: Seq<EmbeddedArt>, resource: Seq<char>, i: int) -> bool {
    &&& 0 <= i < embedded.len()
    &&& embedded[i].resource@ == resource
    &&& forall|j: int| 0 <= j < i ==> (#[trigger] embedded[j]).resource@ != resource
}

/// Whether `resource` is embedded, and with bytes: its first entry holds a
/// drawing, not an empty file.
pub open spec fn embeds(embedded: Seq<EmbeddedArt>, resource: Seq<char>) -> bool {
    exists|i: int| first_embedded(embedded, resource, i) && embedded[i].bytes@.len() > 0
}

/// Whether every section and the fallback point at a drawing whose bytes are
/// embedded: a device that resolves always gets something to draw.
pub open spec fn complete(
    matches: Seq<DeviceArtMatch>,
    drawings: Seq<DeviceArt>,
    embedded: Seq<EmbeddedArt>,
    fallback: usize,
) -> bool {
    &&& points_inside(matches, drawings.len(), fallback)
    &&& embeds(embedded, drawings[fallback as int].resource@)
    &&& forall|i: int|
        0 <= i < matches.len() ==> embeds(
            embedded,
            drawings[(#[trigger] matches[i]).art as int].resource@,
        )
}

/// Whether `resource`'s first embedded entry exists and is not empty.
fn embedded_with_bytes(embedded: &Vec<EmbeddedArt>, resource: &str) -> (found: bool)
    ensures
        found == embeds(embedded@, resource@),
{
    let mut i: usize = 0;
    while i < embedded.len()
        invariant
            0 <= i <= embedded@.len(),
            forall|j: int| 0 <= j < i ==> (#[trigger] embedded@[j]).resource@ != resource@,
        decreases embedded@.len() - i,
    {
        if equals(embedded[i].resource.as_str(), resource) {
            assert(first_embedded(embedded@, resource@, i as int));
            proof {
                assert forall|k: int| first_embedded(embedded@, resource@, k) implies k == i by {
                    if k < i {
                        assert(embedded@[k].resource@ != resource@);
                    } else if k > i {
                        assert(embedded@[i as int].resource@ != resource@);
                    }
                }
            }
            return embedded[i].bytes.len() > 0;
        }
        i = i + 1;
    }
    false
}

/// Whether the Logitech id `product` is among `products`.
fn reported(product: u16, products: &[u16]) -> (found: bool)
    ensures
        found <==> exists|p: int| 0 <= p < products@.len() && products@[p] == product,
{
    let mut p: usize = 0;
    while p < products.len()
        invariant
            0 <= p <= products@.len(),
            forall|q: int| 0 <= q < p ==> products@[q] != product,
        decreases products@.len() - p,
    {
        if products[p] == product {
            return true;
        }
        p = p + 1;
    }
    false
}

/// Whether one section selects a device that reports `products`.
fn section_selects(entry: &DeviceArtMatch, products: &[u16]) -> (found: bool)
    ensures
        found == selects(entry.usb_ids@, products@),
{
    let mut k: usize = 0;
    while k < entry.usb_ids.len()
        invariant
            0 <= k <= entry.usb_ids@.len(),
            forall|j: int, p: int|
                0 <= j < k && 0 <= p < products@.len() ==> !((#[trigger] entry.usb_ids@[j]).0
                    == LOGITECH_VENDOR_ID && entry.usb_ids@[j].1 != 0 && entry.usb_ids@[j].1
                    == #[trigger] products@[p]),
        decreases entry.usb_ids@.len() - k,
    {
        let (vendor, product) = entry.usb_ids[k];
        if vendor == LOGITECH_VENDOR_ID && product != 0 && reported(product, products) {
            return true;
        }
        k = k + 1;
    }
    false
}

impl ArtRegistry {
    #[verifier::type_invariant]
    closed spec fn well_formed(&self) -> bool {
        complete(self.matches@, self.drawings@, self.embedded@, self.fallback)
    }

    /// The sections, in registry order.
    pub closed spec fn sections(&self) -> Seq<DeviceArtMatch> {
        self.matches@
    }

    /// The drawings.
    pub closed spec fn drawing_seq(&self) -> Seq<DeviceArt> {
        self.drawings@
    }

    /// The embedded bytes, by asset path.
    pub closed spec fn embedded_seq(&self) -> Seq<EmbeddedArt> {
        self.embedded@
    }

    /// Which drawing a device with no section gets.
    pub closed spec fn fallback_index(&self) -> usize {
        self.fallback
    }

    /// A registry of these tables, or `None` when a section or the fallback
    /// points past the drawings, or at a drawing whose bytes are not embedded.
    pub fn new(
        matches: Vec<DeviceArtMatch>,
        drawings: Vec<DeviceArt>,
        embedded: Vec<EmbeddedArt>,
        fallback: usize,
    ) -> (registry: Option<ArtRegistry>)
        ensures
            registry is Some <==> complete(matches@, drawings@, embedded@, fallback),
            registry matches Some(r) ==> r.sections() == matches@ && r.drawing_seq() == drawings@
                && r.embedded_seq() == embedded@ && r.fallback_index() == fallback,
    {
        if fallback >= drawings.len() {
            return None;
        }
        if !embedded_with_bytes(&embedded, drawings[fallback].resource.as_str()) {
            return None;
        }
        let mut i: usize = 0;
        while i < matches.len()
            invariant
                0 <= i <= matches@.len(),
                fallback < drawings@.len(),
                forall|j: int| 0 <= j < i ==> (#[trigger] matches@[j]).art < drawings@.len(),
                forall|j: int|
                    0 <= j < i ==> embeds(
                        embedded@,
                        drawings@[(#[trigger] matches@[j]).art as int].resource@,
                    ),
            decreases matches@.len() - i,
        {
            if matches[i].art >= drawings.len() {
                return None;
            }
            if !embedded_with_bytes(&embedded, drawings[matches[i].art].resource.as_str()) {
                return None;
            }
            i = i + 1;
        }
        Some(ArtRegistry { matches, drawings, embedded, fallback })
    }

    /// The drawing for a device that reports these USB product ids, with the
    /// section the registry lists it under.
    ///
    /// Every reported id is tried because a HID++ device names itself
    /// differently per transport and only one of those ids is the one the
    /// registry recorded.
    pub fn art_for_products(&self, products: &[u16]) -> (found: Option<
        (&DeviceArtMatch, &DeviceArt),
    >)
        ensures
            found is None <==> forall|j: int|
                0 <= j < self.sections().len() ==> !selects(
                    (#[trigger] self.sections()[j]).usb_ids@,
                    products@,
                ),
            complete(self.sections(), self.drawing_seq(), self.embedded_seq(), self.fallback_index()),
            found matches Some(pair) ==> exists|i: int|
                first_selecting(self.sections(), products@, i) && *pair.0 == self.sections()[i]
                    && *pair.1 == self.drawing_seq()[self.sections()[i].art as int],
    {
        proof {
            use_type_invariant(self);
        }
        let mut i: usize = 0;
        while i < self.matches.len()
            invariant
                0 <= i <= self.matches@.len(),
                complete(self.matches@, self.drawings@, self.embedded@, self.fallback),
                forall|j: int|
                    0 <= j < i ==> !selects((#[trigger] self.matches@[j]).usb_ids@, products@),
            decreases self.matches@.len() - i,
        {
            let entry = &self.matches[i];
            if section_selects(entry, products) {
                assert(first_selecting(self.sections(), products@, i as int));
                assert(selects(self.sections()[i as int].usb_ids@, products@));
                return Some((entry, &self.drawings[entry.art]));
            }
            i = i + 1;
        }
        None
    }

    /// The sections, in registry order.
    pub fn entries(&self) -> (entries: &Vec<DeviceArtMatch>)
        ensures
            entries@ == self.sections(),
            complete(self.sections(), self.drawing_seq(), self.embedded_seq(), self.fallback_index()),
    {
        proof {
            use_type_invariant(self);
        }
        &self.matches
    }

    /// The drawing at `index`, if there is one.
    pub fn drawing(&self, index: usize) -> (art: Option<&DeviceArt>)
        ensures
            art is Some <==> index < self.drawing_seq().len(),
            art matches Some(a) ==> *a == self.drawing_seq()[index as int],
    {
        if index < self.drawings.len() {
            Some(&self.drawings[index])
        } else {
            None
        }
    }

    /// The generic outline, for a device with no section.
    pub fn fallback_art(&self) -> (art: &DeviceArt)
        ensures
            *art == self.drawing_seq()[self.fallback_index() as int],
            complete(self.sections(), self.drawing_seq(), self.embedded_seq(), self.fallback_index()),
    {
        proof {
            use_type_invariant(self);
        }
        &self.drawings[self.fallback]
    }

    /// The embedded bytes of a drawing, for the asset source.
    pub fn art_bytes(&self, resource: &str) -> (bytes: Option<&[u8]>)
        ensures
            bytes is None <==> forall|j: int|
                0 <= j < self.embedded_seq().len() ==> (#[trigger] self.embedded_seq()[j]).resource@
                    != resource@,
            bytes matches Some(b) ==> exists|i: int|
                first_embedded(self.embedded_seq(), resource@, i) && b@
                    == self.embedded_seq()[i].bytes@,
    {
        let mut i: usize = 0;
        while i < self.embedded.len()
            invariant
                0 <= i <= self.embedded@.len(),
                forall|j: int|
                    0 <= j < i ==> (#[trigger] self.embedded@[j]).resource@ != resource@,
            decreases self.embedded@.len() - i,
        {
            if equals(self.embedded[i].resource.as_str(), resource) {
                assert(first_embedded(self.embedded_seq(), resource@, i as int));
                assert(self.embedded_seq()[i as int].resource@ == resource@);
                return Some(self.embedded[i].bytes.as_slice());
            }
            i = i + 1;
        }
        None
    }
}

} // verus!
