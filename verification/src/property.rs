//! The platform properties that the derivations consume, and the table in
//! which a caller records what each lookup gave.

use vstd::prelude::*;

verus! {

/// A platform property, named by the role it plays in the derivations.
#[derive(Clone, Copy, Debug, PartialEq, Eq, Structural, Hash)]
pub enum Property {
    VendorBrand,
    Brand,
    VendorDevice,
    Device,
    VendorName,
    Name,
    VendorManufacturer,
    Manufacturer,
    VendorModel,
    Model,
    SerialNumber,
    VbmetaDigest,
    DeviceState,
    PublicKeyDigest,
    VerifiedBootState,
    VendorBootSecurityPatch,
    OsPatchlevel,
}

impl Property {
    /// The name under which the platform keeps this property.
    pub open spec fn spec_name(self) -> Seq<char> {
        match self {
            Property::VendorBrand => "ro.product.vendor.brand"@,
            Property::Brand => "ro.product.brand"@,
            Property::VendorDevice => "ro.product.vendor.device"@,
            Property::Device => "ro.product.device"@,
            Property::VendorName => "ro.product.vendor.name"@,
            Property::Name => "ro.product.name"@,
            Property::VendorManufacturer => "ro.product.vendor.manufacturer"@,
            Property::Manufacturer => "ro.product.manufacturer"@,
            Property::VendorModel => "ro.product.vendor.model"@,
            Property::Model => "ro.product.model"@,
            Property::SerialNumber => "ro.serialno"@,
            Property::VbmetaDigest => "ro.boot.vbmeta.digest"@,
            Property::DeviceState => "ro.boot.vbmeta.device_state"@,
            Property::PublicKeyDigest => "ro.boot.vbmeta.public_key_digest"@,
            Property::VerifiedBootState => "ro.boot.verifiedbootstate"@,
            Property::VendorBootSecurityPatch => "ro.vendor.boot_security_patch"@,
            Property::OsPatchlevel => "ro.build.version.security_patch"@,
        }
    }

    /// The name to hand to the platform's property store.
    pub fn name(self) -> (name: &'static str)
        ensures
            name@ == self.spec_name(),
    {
        match self {
            Property::VendorBrand => "ro.product.vendor.brand",
            Property::Brand => "ro.product.brand",
            Property::VendorDevice => "ro.product.vendor.device",
            Property::Device => "ro.product.device",
            Property::VendorName => "ro.product.vendor.name",
            Property::Name => "ro.product.name",
            Property::VendorManufacturer => "ro.product.vendor.manufacturer",
            Property::Manufacturer => "ro.product.manufacturer",
            Property::VendorModel => "ro.product.vendor.model",
            Property::Model => "ro.product.model",
            Property::SerialNumber => "ro.serialno",
            Property::VbmetaDigest => "ro.boot.vbmeta.digest",
            Property::DeviceState => "ro.boot.vbmeta.device_state",
            Property::PublicKeyDigest => "ro.boot.vbmeta.public_key_digest",
            Property::VerifiedBootState => "ro.boot.verifiedbootstate",
            Property::VendorBootSecurityPatch => "ro.vendor.boot_security_patch",
            Property::OsPatchlevel => "ro.build.version.security_patch",
        }
    }

    /// The property's place in a [`Lookups`] table.
    pub open spec fn spec_index(self) -> int {
        match self {
            Property::VendorBrand => 0,
            Property::Brand => 1,
            Property::VendorDevice => 2,
            Property::Device => 3,
            Property::VendorName => 4,
            Property::Name => 5,
            Property::VendorManufacturer => 6,
            Property::Manufacturer => 7,
            Property::VendorModel => 8,
            Property::Model => 9,
            Property::SerialNumber => 10,
            Property::VbmetaDigest => 11,
            Property::DeviceState => 12,
            Property::PublicKeyDigest => 13,
            Property::VerifiedBootState => 14,
            Property::VendorBootSecurityPatch => 15,
            Property::OsPatchlevel => 16,
        }
    }

    fn index(self) -> (i: usize)
        ensures
            i == self.spec_index(),
            i < 17,
    {
        match self {
            Property::VendorBrand => 0,
            Property::Brand => 1,
            Property::VendorDevice => 2,
            Property::Device => 3,
            Property::VendorName => 4,
            Property::Name => 5,
            Property::VendorManufacturer => 6,
            Property::Manufacturer => 7,
            Property::VendorModel => 8,
            Property::Model => 9,
            Property::SerialNumber => 10,
            Property::VbmetaDigest => 11,
            Property::DeviceState => 12,
            Property::PublicKeyDigest => 13,
            Property::VerifiedBootState => 14,
            Property::VendorBootSecurityPatch => 15,
            Property::OsPatchlevel => 16,
        }
    }
}

/// What is known of one property.
#[derive(Clone, Debug, PartialEq, Eq)]
pub enum Lookup {
    /// Nobody has looked the property up yet.
    Pending,
    /// The lookup was made and the platform has no such property.
    Missing,
    /// The lookup was made and gave this value.
    Found(String),
}

impl Lookup {
    /// Whether the lookup has been made.
    pub open spec fn asked(self) -> bool {
        !(self is Pending)
    }

    /// The value the lookup gave, if it was made and gave one.
    pub open spec fn value(self) -> Option<Seq<char>> {
        match self {
            Lookup::Found(s) => Some(s@),
            _ => None,
        }
    }

    /// The outcome of a lookup that was made: a value, or none.
    pub open spec fn of(value: Option<String>) -> Lookup {
        match value {
            Some(s) => Lookup::Found(s),
            None => Lookup::Missing,
        }
    }
}

/// The outcomes of the lookups made so far, one slot for each [`Property`].
#[derive(Clone, Debug, PartialEq, Eq)]
pub struct Lookups {
    slots: [Lookup; 17],
}

impl Lookups {
    /// What the table holds for `property`.
    pub closed spec fn slot(self, property: Property) -> Lookup {
        self.slots[property.spec_index()]
    }

    /// Whether `property` has been looked up.
    pub open spec fn asked(self, property: Property) -> bool {
        self.slot(property).asked()
    }

    /// The value that `property` was found to have, if any.
    pub open spec fn value(self, property: Property) -> Option<Seq<char>> {
        self.slot(property).value()
    }

    /// A table in which no lookup has been made.
    pub fn new() -> (table: Lookups)
        ensures
            forall|p: Property| table.slot(p) == Lookup::Pending,
    {
        Lookups {
            slots: [
                Lookup::Pending,
                Lookup::Pending,
                Lookup::Pending,
                Lookup::Pending,
                Lookup::Pending,
                Lookup::Pending,
                Lookup::Pending,
                Lookup::Pending,
                Lookup::Pending,
                Lookup::Pending,
                Lookup::Pending,
                Lookup::Pending,
                Lookup::Pending,
                Lookup::Pending,
                Lookup::Pending,
                Lookup::Pending,
                Lookup::Pending,
            ],
        }
    }

    /// Records the outcome of looking `property` up: `Some` with the value
    /// found, `None` where the platform has no such property. An earlier
    /// outcome for the same property is replaced; no other slot changes.
    pub fn record(&mut self, property: Property, value: Option<String>)
        ensures
            final(self).slot(property) == Lookup::of(value),
            forall|p: Property| p != property ==> final(self).slot(p) == old(self).slot(p),
    {
        let outcome = match value {
            Some(s) => Lookup::Found(s),
            None => Lookup::Missing,
        };
        let i: usize = property.index();
        self.slots[i] = outcome;
    }

    /// The value that `property` was found to have, if it was looked up and
    /// the platform had it.
    pub fn found(&self, property: Property) -> (value: Option<&str>)
        ensures
            value is Some <==> self.value(property) is Some,
            value matches Some(text) ==> Some(text@) == self.value(property),
    {
        match self.get(property) {
            Lookup::Found(text) => Some(text.as_str()),
            _ => None,
        }
    }

    /// Whether `property` has been looked up.
    pub fn is_asked(&self, property: Property) -> (asked: bool)
        ensures
            asked == self.asked(property),
    {
        match self.get(property) {
            Lookup::Pending => false,
            _ => true,
        }
    }

    /// What the table holds for `property`.
    pub fn get(&self, property: Property) -> (lookup: &Lookup)
        ensures
            *lookup == self.slot(property),
    {
        &self.slots[property.index()]
    }
}

} // verus!
