use keymint_hal::plan::{next_lookup, wanted};
use keymint_hal::text::{same_bytes, same_text};
use keymint_hal::{next_boot_lookup, next_identity_lookup, Lookup, Lookups, Property};

const ALL: [Property; 17] = [
    Property::VendorBrand,
    Property::Brand,
    Property::VendorDevice,
    Property::Device,
    Property::VendorName,
    Property::Name,
    Property::VendorManufacturer,
    Property::Manufacturer,
    Property::VendorModel,
    Property::Model,
    Property::SerialNumber,
    Property::VbmetaDigest,
    Property::DeviceState,
    Property::PublicKeyDigest,
    Property::VerifiedBootState,
    Property::VendorBootSecurityPatch,
    Property::OsPatchlevel,
];

#[test]
fn new_table_has_nothing_asked() {
    let seen = Lookups::new();
    for property in ALL {
        assert_eq!(*seen.get(property), Lookup::Pending);
        assert!(!seen.is_asked(property));
        assert_eq!(seen.found(property), None);
    }
}

#[test]
fn record_changes_one_slot_only() {
    for (i, property) in ALL.iter().enumerate() {
        let mut seen = Lookups::new();
        seen.record(*property, Some(format!("value {}", i)));
        for other in ALL {
            if other == *property {
                assert_eq!(*seen.get(other), Lookup::Found(format!("value {}", i)));
                assert_eq!(seen.found(other), Some(format!("value {}", i).as_str()));
                assert!(seen.is_asked(other));
            } else {
                assert_eq!(*seen.get(other), Lookup::Pending);
            }
        }
    }
}

#[test]
fn record_replaces_an_earlier_outcome() {
    let mut seen = Lookups::new();
    seen.record(Property::Brand, Some("first".to_string()));
    seen.record(Property::Brand, None);
    assert_eq!(*seen.get(Property::Brand), Lookup::Missing);
    assert!(seen.is_asked(Property::Brand));
    assert_eq!(seen.found(Property::Brand), None);
    seen.record(Property::Brand, Some("second".to_string()));
    assert_eq!(seen.found(Property::Brand), Some("second"));
}

#[test]
fn property_names_are_distinct() {
    for (i, a) in ALL.iter().enumerate() {
        for (j, b) in ALL.iter().enumerate() {
            assert_eq!(i == j, a.name() == b.name());
        }
    }
}

#[test]
fn fallback_is_wanted_only_after_primary_failed() {
    let pairs = [
        (Property::VendorBrand, Property::Brand),
        (Property::VendorDevice, Property::Device),
        (Property::VendorName, Property::Name),
        (Property::VendorManufacturer, Property::Manufacturer),
        (Property::VendorModel, Property::Model),
    ];
    for (vendor, plain) in pairs {
        let mut seen = Lookups::new();
        assert!(wanted(&seen, vendor));
        assert!(!wanted(&seen, plain));
        seen.record(vendor, Some("acme".to_string()));
        assert!(!wanted(&seen, plain));
        seen.record(vendor, Some(String::new()));
        assert!(wanted(&seen, plain));
        seen.record(vendor, None);
        assert!(wanted(&seen, plain));
    }
    let mut seen = Lookups::new();
    assert!(!wanted(&seen, Property::OsPatchlevel));
    seen.record(Property::VendorBootSecurityPatch, Some(String::new()));
    assert!(!wanted(&seen, Property::OsPatchlevel));
    seen.record(Property::VendorBootSecurityPatch, None);
    assert!(wanted(&seen, Property::OsPatchlevel));
}

#[test]
fn next_lookup_takes_the_first_open_property() {
    let order = [Property::SerialNumber, Property::DeviceState, Property::SerialNumber];
    let mut seen = Lookups::new();
    assert_eq!(next_lookup(&seen, &order), Some(Property::SerialNumber));
    seen.record(Property::SerialNumber, None);
    assert_eq!(next_lookup(&seen, &order), Some(Property::DeviceState));
    seen.record(Property::DeviceState, Some("locked".to_string()));
    assert_eq!(next_lookup(&seen, &order), None);
    assert_eq!(next_lookup(&Lookups::new(), &[]), None);
    assert_eq!(next_lookup(&Lookups::new(), &[Property::Brand]), None);
}

#[test]
fn plans_end_whatever_the_platform_answers() {
    for answer in [None, Some(""), Some("locked"), Some("2020-02-02")] {
        let mut seen = Lookups::new();
        let mut steps = 0;
        while let Some(property) = next_identity_lookup(&seen) {
            assert!(!seen.is_asked(property));
            seen.record(property, answer.map(|text| text.to_string()));
            steps += 1;
            assert!(steps <= 11);
        }
        while let Some(property) = next_boot_lookup(&seen) {
            assert!(!seen.is_asked(property));
            seen.record(property, answer.map(|text| text.to_string()));
            steps += 1;
            assert!(steps <= 17);
        }
        assert!(steps >= 11);
    }
}

#[test]
fn texts_and_bytes_compare_by_content() {
    assert!(same_text("locked", "locked"));
    assert!(!same_text("locked", "unlocked"));
    assert!(!same_text("locked", "locke"));
    assert!(!same_text("locked", "lockeD"));
    assert!(same_text("", ""));
    assert!(same_text("gr\u{fc}n", "gr\u{fc}n"));
    assert!(!same_text("gr\u{fc}n", "grun"));
    assert!(same_bytes(&[1, 2, 3], &[1, 2, 3]));
    assert!(!same_bytes(&[1, 2, 3], &[1, 2, 4]));
    assert!(!same_bytes(&[1, 2, 3], &[1, 2]));
    assert!(same_bytes(&[], &[]));
}
