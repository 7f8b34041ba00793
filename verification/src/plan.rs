//! Which property to look up next.
//!
//! Most properties are consulted whatever the others hold. A few are
//! fallbacks: the plain product properties stand in for their vendor
//! counterparts, and the OS patch level for the vendor boot patch level. A
//! fallback is consulted only once its primary has been looked up and has
//! failed, so a primary that answers keeps its fallback from ever being read.

use crate::property::{Lookup, Lookups, Property};
use vstd::prelude::*;

verus! {

/// Whether a vendor product property has been looked up to no avail: the
/// platform does not have it, or has it empty.
pub open spec fn vendor_tier_failed(lookup: Lookup) -> bool {
    match lookup {
        Lookup::Pending => false,
        Lookup::Missing => true,
        Lookup::Found(text) => text@.len() == 0,
    }
}

/// Whether `property` is to be consulted, given what `seen` holds. A fallback
/// is wanted once its primary has failed; every other property always is.
pub open spec fn spec_wanted(seen: Lookups, property: Property) -> bool {
    match property {
        Property::Brand => vendor_tier_failed(seen.slot(Property::VendorBrand)),
        Property::Device => vendor_tier_failed(seen.slot(Property::VendorDevice)),
        Property::Name => vendor_tier_failed(seen.slot(Property::VendorName)),
        Property::Manufacturer => vendor_tier_failed(seen.slot(Property::VendorManufacturer)),
        Property::Model => vendor_tier_failed(seen.slot(Property::VendorModel)),
        Property::OsPatchlevel => seen.slot(Property::VendorBootSecurityPatch) is Missing,
        _ => true,
    }
}

/// The first property of `order` that is wanted and has not been looked up.
pub open spec fn first_open(seen: Lookups, order: Seq<Property>) -> Option<Property>
    decreases order.len(),
{
    if order.len() == 0 {
        None
    } else if spec_wanted(seen, order[0]) && !seen.asked(order[0]) {
        Some(order[0])
    } else {
        first_open(seen, order.drop_first())
    }
}

fn vendor_failed(seen: &Lookups, vendor: Property) -> (failed: bool)
    ensures
        failed == vendor_tier_failed(seen.slot(vendor)),
{
    match seen.get(vendor) {
        Lookup::Pending => false,
        Lookup::Missing => true,
        Lookup::Found(text) => text.as_str().is_empty(),
    }
}

/// Whether `property` is to be consulted, given what `seen` holds.
pub fn wanted(seen: &Lookups, property: Property) -> (wanted: bool)
    ensures
        wanted == spec_wanted(*seen, property),
{
    match property {
        Property::Brand => vendor_failed(seen, Property::VendorBrand),
        Property::Device => vendor_failed(seen, Property::VendorDevice),
        Property::Name => vendor_failed(seen, Property::VendorName),
        Property::Manufacturer => vendor_failed(seen, Property::VendorManufacturer),
        Property::Model => vendor_failed(seen, Property::VendorModel),
        Property::OsPatchlevel => match seen.get(Property::VendorBootSecurityPatch) {
            Lookup::Missing => true,
            _ => false,
        },
        _ => true,
    }
}

/// The property to look up next when those of `order` are consulted in turn:
/// the first that is wanted and has no outcome yet, or `None` once every
/// wanted one has.
pub fn next_lookup(seen: &Lookups, order: &[Property]) -> (next: Option<Property>)
    ensures
        next == first_open(*seen, order@),
{
    let mut i: usize = 0;
    assert(order@.subrange(0, order@.len() as int) =~= order@);
    while i < order.len()
        invariant
            i <= order.len(),
            first_open(*seen, order@) == first_open(
                *seen,
                order@.subrange(i as int, order@.len() as int),
            ),
        decreases order.len() - i,
    {
        let property = order[i];
        let ghost rest = order@.subrange(i as int, order@.len() as int);
        assert(rest[0] == property);
        assert(rest.drop_first() =~= order@.subrange(i + 1, order@.len() as int));
        if wanted(seen, property) && !seen.is_asked(property) {
            return Some(property);
        }
        i += 1;
    }
    None
}

/// What [`first_open`] picks is in the order, is wanted, and has not been
/// looked up; and where it picks nothing, every wanted property of the order
/// has been.
pub proof fn first_open_is_open(seen: Lookups, order: Seq<Property>)
    ensures
        first_open(seen, order) matches Some(p) ==> order.contains(p) && spec_wanted(seen, p)
            && !seen.asked(p),
        first_open(seen, order) is None ==> forall|i: int|
            0 <= i < order.len() && spec_wanted(seen, #[trigger] order[i]) ==> seen.asked(order[i]),
    decreases order.len(),
{
    if order.len() > 0 {
        let rest = order.drop_first();
        first_open_is_open(seen, rest);
        if !(spec_wanted(seen, order[0]) && !seen.asked(order[0])) {
            if first_open(seen, rest) is Some {
                let p = first_open(seen, rest).unwrap();
                let k = choose|k: int| 0 <= k < rest.len() && rest[k] == p;
                assert(order[k + 1] == p);
            } else {
                assert forall|i: int|
                    0 <= i < order.len() && spec_wanted(seen, #[trigger] order[i]) implies seen.asked(
                    order[i],
                ) by {
                    if i > 0 {
                        assert(rest[i - 1] == order[i]);
                    }
                }
            }
        } else {
            assert(order[0] == order[0]);
        }
    }
}

/// One if `property` has not been looked up, zero if it has.
pub open spec fn pending(seen: Lookups, property: Property) -> nat {
    if seen.asked(property) {
        0
    } else {
        1
    }
}

/// How many properties have not been looked up.
pub open spec fn pending_count(seen: Lookups) -> nat {
    pending(seen, Property::VendorBrand) + pending(seen, Property::Brand) + pending(
        seen,
        Property::VendorDevice,
    ) + pending(seen, Property::Device) + pending(seen, Property::VendorName) + pending(
        seen,
        Property::Name,
    ) + pending(seen, Property::VendorManufacturer) + pending(seen, Property::Manufacturer)
        + pending(seen, Property::VendorModel) + pending(seen, Property::Model) + pending(
        seen,
        Property::SerialNumber,
    ) + pending(seen, Property::VbmetaDigest) + pending(seen, Property::DeviceState) + pending(
        seen,
        Property::PublicKeyDigest,
    ) + pending(seen, Property::VerifiedBootState) + pending(
        seen,
        Property::VendorBootSecurityPatch,
    ) + pending(seen, Property::OsPatchlevel)
}

/// Following the plan comes to an end. Recording an outcome for the property
/// that the plan asked for, and changing nothing else, leaves one property
/// fewer to look up; so a plan is followed for 17 steps at most.
pub proof fn lookup_makes_progress(
    seen: Lookups,
    later: Lookups,
    order: Seq<Property>,
    property: Property,
)
    requires
        first_open(seen, order) == Some(property),
        later.asked(property),
        forall|p: Property| p != property ==> later.slot(p) == seen.slot(p),
    ensures
        pending_count(later) + 1 == pending_count(seen),
        pending_count(seen) <= 17,
        first_open(later, order) != Some(property),
{
    first_open_is_open(seen, order);
    first_open_is_open(later, order);
    assert(pending(seen, property) == 1 && pending(later, property) == 0);
    assert forall|p: Property| p != property implies pending(later, p) == pending(seen, p) by {
        assert(later.slot(p) == seen.slot(p));
    }
    match property {
        Property::VendorBrand => {},
        Property::Brand => {},
        Property::VendorDevice => {},
        Property::Device => {},
        Property::VendorName => {},
        Property::Name => {},
        Property::VendorManufacturer => {},
        Property::Manufacturer => {},
        Property::VendorModel => {},
        Property::Model => {},
        Property::SerialNumber => {},
        Property::VbmetaDigest => {},
        Property::DeviceState => {},
        Property::PublicKeyDigest => {},
        Property::VerifiedBootState => {},
        Property::VendorBootSecurityPatch => {},
        Property::OsPatchlevel => {},
    }
}

} // verus!
