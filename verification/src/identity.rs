//! Attestation identity, derived from the product properties.
//!
//! Brand, device, product, manufacturer and model each come in two tiers: the
//! vendor's property is preferred, and the plain one is read only where the
//! vendor's is missing or empty. The serial number has one tier. A field whose
//! property cannot be had holds a marker that names the property, so every
//! field is always there.

use crate::plan::{first_open, first_open_is_open, next_lookup, spec_wanted};
use crate::property::{Lookups, Property};
use vstd::prelude::*;
use vstd::string::*;
use vstd::utf8::*;

verus! {

/// A field of the identity that has a vendor tier and a plain tier.
#[derive(Clone, Copy, Debug, PartialEq, Eq, Structural, Hash)]
pub enum IdField {
    Brand,
    Device,
    Product,
    Manufacturer,
    Model,
}

impl IdField {
    /// The vendor's property for the field, which is preferred.
    pub open spec fn spec_vendor(self) -> Property {
        match self {
            IdField::Brand => Property::VendorBrand,
            IdField::Device => Property::VendorDevice,
            IdField::Product => Property::VendorName,
            IdField::Manufacturer => Property::VendorManufacturer,
            IdField::Model => Property::VendorModel,
        }
    }

    /// The plain property for the field, which is the fallback.
    pub open spec fn spec_plain(self) -> Property {
        match self {
            IdField::Brand => Property::Brand,
            IdField::Device => Property::Device,
            IdField::Product => Property::Name,
            IdField::Manufacturer => Property::Manufacturer,
            IdField::Model => Property::Model,
        }
    }

    /// The vendor's property for the field.
    pub fn vendor(self) -> (property: Property)
        ensures
            property == self.spec_vendor(),
    {
        match self {
            IdField::Brand => Property::VendorBrand,
            IdField::Device => Property::VendorDevice,
            IdField::Product => Property::VendorName,
            IdField::Manufacturer => Property::VendorManufacturer,
            IdField::Model => Property::VendorModel,
        }
    }

    /// The plain property for the field.
    pub fn plain(self) -> (property: Property)
        ensures
            property == self.spec_plain(),
    {
        match self {
            IdField::Brand => Property::Brand,
            IdField::Device => Property::Device,
            IdField::Product => Property::Name,
            IdField::Manufacturer => Property::Manufacturer,
            IdField::Model => Property::Model,
        }
    }
}

/// The identity of the device, each field as raw bytes.
#[derive(Clone, Debug, PartialEq, Eq)]
pub struct AttestationIdInfo {
    pub brand: Vec<u8>,
    pub device: Vec<u8>,
    pub product: Vec<u8>,
    pub serial: Vec<u8>,
    pub manufacturer: Vec<u8>,
    pub model: Vec<u8>,
    /// Always [`imei_text`]: the simulated modem reports one fixed number,
    /// and no property is read for it.
    pub imei: Vec<u8>,
    /// Always equal to `imei`.
    pub imei2: Vec<u8>,
    /// Always empty.
    pub meid: Vec<u8>,
}

impl AttestationIdInfo {
    /// What holds of every identity that this library hands out: both IMEI
    /// fields hold the fixed number, and the MEID is empty.
    pub open spec fn well_formed(self) -> bool {
        &&& self.imei@ == encode_utf8(imei_text())
        &&& self.imei2@ == encode_utf8(imei_text())
        &&& self.meid@ == Seq::<u8>::empty()
    }
}

/// The one IMEI that the simulated modem reports.
pub open spec fn imei_text() -> Seq<char> {
    "867400022047199"@
}

/// The marker that stands in for a property that cannot be had: the
/// property's name, a space, and the word `unavailable`.
pub open spec fn unavailable(property: Property) -> Seq<char> {
    property.spec_name() + " unavailable"@
}

/// The text of a property with one tier: its value, or the marker.
pub open spec fn spec_direct_text(seen: Lookups, property: Property) -> Seq<char> {
    match seen.value(property) {
        Some(text) => text,
        None => unavailable(property),
    }
}

/// The text of a field with two tiers: the vendor's value where there is one
/// and it is not empty, else what the plain property gives by itself.
pub open spec fn spec_attestation_text(seen: Lookups, field: IdField) -> Seq<char> {
    match seen.value(field.spec_vendor()) {
        Some(text) if text.len() > 0 => text,
        _ => spec_direct_text(seen, field.spec_plain()),
    }
}

/// The bytes of a property with one tier.
pub open spec fn spec_direct_property(seen: Lookups, property: Property) -> Seq<u8> {
    encode_utf8(spec_direct_text(seen, property))
}

/// The bytes of a field with two tiers.
pub open spec fn spec_attestation_property(seen: Lookups, field: IdField) -> Seq<u8> {
    encode_utf8(spec_attestation_text(seen, field))
}

/// The identity properties, in the order in which they are consulted.
pub open spec fn identity_order() -> Seq<Property> {
    seq![
        Property::VendorBrand,
        Property::Brand,
        Property::VendorDevice,
        Property::Device,
        Property::VendorName,
        Property::Name,
        Property::SerialNumber,
        Property::VendorManufacturer,
        Property::Manufacturer,
        Property::VendorModel,
        Property::Model,
    ]
}

/// The marker for `property`, as text.
fn unavailable_marker(property: Property) -> (marker: String)
    ensures
        marker@ == unavailable(property),
{
    property.name().to_owned().concat(" unavailable")
}

/// The bytes of `property` as `seen` has it: its value taken verbatim, or the
/// marker where it has none.
pub fn direct_property(seen: &Lookups, property: Property) -> (bytes: Vec<u8>)
    ensures
        bytes@ == spec_direct_property(*seen, property),
{
    match seen.found(property) {
        Some(text) => text.as_bytes_vec(),
        None => unavailable_marker(property).as_str().as_bytes_vec(),
    }
}

/// The bytes of `field`, from its most significant property: the vendor's
/// where that has a value that is not empty, else the plain one, else the
/// marker for the plain one.
pub fn attestation_property(seen: &Lookups, field: IdField) -> (bytes: Vec<u8>)
    ensures
        bytes@ == spec_attestation_property(*seen, field),
{
    match seen.found(field.vendor()) {
        Some(text) if !text.is_empty() => text.as_bytes_vec(),
        _ => direct_property(seen, field.plain()),
    }
}

/// The identity that follows from the lookups in `seen`. A property that was
/// not looked up counts as one the platform does not have. Both IMEI fields
/// hold the one fixed number, and the MEID is empty.
pub fn attestation_id_info(seen: &Lookups) -> (info: AttestationIdInfo)
    ensures
        info.brand@ == spec_attestation_property(*seen, IdField::Brand),
        info.device@ == spec_attestation_property(*seen, IdField::Device),
        info.product@ == spec_attestation_property(*seen, IdField::Product),
        info.serial@ == spec_direct_property(*seen, Property::SerialNumber),
        info.manufacturer@ == spec_attestation_property(*seen, IdField::Manufacturer),
        info.model@ == spec_attestation_property(*seen, IdField::Model),
        info.imei@ == encode_utf8(imei_text()),
        info.imei2@ == info.imei@,
        info.meid@ == Seq::<u8>::empty(),
        info.well_formed(),
{
    AttestationIdInfo {
        brand: attestation_property(seen, IdField::Brand),
        device: attestation_property(seen, IdField::Device),
        product: attestation_property(seen, IdField::Product),
        serial: direct_property(seen, Property::SerialNumber),
        manufacturer: attestation_property(seen, IdField::Manufacturer),
        model: attestation_property(seen, IdField::Model),
        imei: "867400022047199".as_bytes_vec(),
        imei2: "867400022047199".as_bytes_vec(),
        meid: Vec::new(),
    }
}

/// The identity property to look up next, or `None` once
/// [`attestation_id_info`] has all it reads. A plain property is asked for
/// only after the vendor's was found missing or empty.
pub fn next_identity_lookup(seen: &Lookups) -> (next: Option<Property>)
    ensures
        next == first_open(*seen, identity_order()),
{
    let order = [
        Property::VendorBrand,
        Property::Brand,
        Property::VendorDevice,
        Property::Device,
        Property::VendorName,
        Property::Name,
        Property::SerialNumber,
        Property::VendorManufacturer,
        Property::Manufacturer,
        Property::VendorModel,
        Property::Model,
    ];
    assert(order@ =~= identity_order());
    next_lookup(seen, order.as_slice())
}

/// The vendor tier takes precedence. Where the vendor's property of a field
/// has a value that is not empty, the field is that value, the plain property
/// is not wanted, and no plan ever asks for it: whatever the plain property
/// holds, it is not read.
pub proof fn vendor_tier_takes_precedence(seen: Lookups, field: IdField, order: Seq<Property>)
    requires
        seen.value(field.spec_vendor()) is Some,
        seen.value(field.spec_vendor()).unwrap().len() > 0,
    ensures
        spec_attestation_text(seen, field) == seen.value(field.spec_vendor()).unwrap(),
        spec_attestation_property(seen, field) == encode_utf8(
            seen.value(field.spec_vendor()).unwrap(),
        ),
        !spec_wanted(seen, field.spec_plain()),
        first_open(seen, order) != Some(field.spec_plain()),
{
    first_open_is_open(seen, order);
}

/// With a vendor value in place, the plain tier has no say: two tables that
/// agree on the vendor's property of a field give the field the same bytes.
pub proof fn plain_tier_is_ignored(seen: Lookups, other: Lookups, field: IdField)
    requires
        seen.value(field.spec_vendor()) is Some,
        seen.value(field.spec_vendor()).unwrap().len() > 0,
        other.value(field.spec_vendor()) == seen.value(field.spec_vendor()),
    ensures
        spec_attestation_property(other, field) == spec_attestation_property(seen, field),
{
}

/// Where the vendor's property of a field is missing or empty, the field is
/// what the plain property holds, taken verbatim.
pub proof fn plain_tier_stands_in(seen: Lookups, field: IdField)
    requires
        !(seen.value(field.spec_vendor()) matches Some(text) && text.len() > 0),
        seen.value(field.spec_plain()) is Some,
    ensures
        spec_attestation_property(seen, field) == encode_utf8(
            seen.value(field.spec_plain()).unwrap(),
        ),
{
}

/// Where neither tier of a field gives a value, the field is the marker for
/// its plain property.
pub proof fn unresolved_field_is_marker(seen: Lookups, field: IdField)
    requires
        !(seen.value(field.spec_vendor()) matches Some(text) && text.len() > 0),
        seen.value(field.spec_plain()) is None,
    ensures
        spec_attestation_property(seen, field) == encode_utf8(unavailable(field.spec_plain())),
{
}

/// Once the plan asks for nothing more, the identity is settled: a table that
/// keeps every outcome of `seen` and adds others gives the same fields.
pub proof fn identity_is_settled(seen: Lookups, later: Lookups)
    requires
        first_open(seen, identity_order()) is None,
        forall|p: Property| seen.asked(p) ==> later.slot(p) == seen.slot(p),
    ensures
        forall|field: IdField|
            spec_attestation_property(later, field) == spec_attestation_property(seen, field),
        spec_direct_property(later, Property::SerialNumber) == spec_direct_property(
            seen,
            Property::SerialNumber,
        ),
{
    first_open_is_open(seen, identity_order());
    let order = identity_order();
    assert(order[0] == Property::VendorBrand && order[1] == Property::Brand);
    assert(order[2] == Property::VendorDevice && order[3] == Property::Device);
    assert(order[4] == Property::VendorName && order[5] == Property::Name);
    assert(order[6] == Property::SerialNumber);
    assert(order[7] == Property::VendorManufacturer && order[8] == Property::Manufacturer);
    assert(order[9] == Property::VendorModel && order[10] == Property::Model);
    assert forall|field: IdField|
        spec_attestation_property(later, field) == spec_attestation_property(seen, field) by {
        assert(seen.asked(field.spec_vendor()));
        if spec_wanted(seen, field.spec_plain()) {
            assert(seen.asked(field.spec_plain()));
        }
    }
}

} // verus!
