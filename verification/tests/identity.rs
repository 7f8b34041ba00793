use keymint_hal::identity::{attestation_property, direct_property};
use keymint_hal::{attestation_id_info, next_identity_lookup, IdField, Lookups, Property};

fn table(entries: &[(Property, Option<&str>)]) -> Lookups {
    let mut seen = Lookups::new();
    for (property, value) in entries {
        seen.record(*property, value.map(|text| text.to_string()));
    }
    seen
}

/// Follows the identity plan against `platform`, and returns the table it
/// fills together with the names that were looked up, in order.
fn resolve_identity(platform: &[(&str, &str)]) -> (Lookups, Vec<String>) {
    let mut seen = Lookups::new();
    let mut asked = Vec::new();
    while let Some(property) = next_identity_lookup(&seen) {
        assert!(asked.len() < 17, "the plan does not end");
        let name = property.name();
        asked.push(name.to_string());
        let value = platform
            .iter()
            .find(|(known, _)| *known == name)
            .map(|(_, value)| value.to_string());
        seen.record(property, value);
    }
    (seen, asked)
}

#[test]
fn identity_without_properties_is_all_markers() {
    let info = attestation_id_info(&Lookups::new());
    assert_eq!(info.brand, b"ro.product.brand unavailable".to_vec());
    assert_eq!(info.device, b"ro.product.device unavailable".to_vec());
    assert_eq!(info.product, b"ro.product.name unavailable".to_vec());
    assert_eq!(info.serial, b"ro.serialno unavailable".to_vec());
    assert_eq!(info.manufacturer, b"ro.product.manufacturer unavailable".to_vec());
    assert_eq!(info.model, b"ro.product.model unavailable".to_vec());
    assert_eq!(info.imei, b"867400022047199".to_vec());
    assert_eq!(info.imei2, b"867400022047199".to_vec());
    assert_eq!(info.meid, Vec::<u8>::new());
}

#[test]
fn identity_without_properties_resolved_by_plan() {
    let (seen, asked) = resolve_identity(&[]);
    assert_eq!(
        asked,
        vec![
            "ro.product.vendor.brand",
            "ro.product.brand",
            "ro.product.vendor.device",
            "ro.product.device",
            "ro.product.vendor.name",
            "ro.product.name",
            "ro.serialno",
            "ro.product.vendor.manufacturer",
            "ro.product.manufacturer",
            "ro.product.vendor.model",
            "ro.product.model",
        ]
    );
    assert_eq!(attestation_id_info(&seen), attestation_id_info(&Lookups::new()));
}

#[test]
fn imei_and_meid_do_not_depend_on_properties() {
    let (seen, _) = resolve_identity(&[
        ("ro.product.vendor.brand", "acme"),
        ("ro.serialno", "SN-0001"),
        ("ro.product.model", "rocket"),
    ]);
    let info = attestation_id_info(&seen);
    assert_eq!(info.imei, b"867400022047199".to_vec());
    assert_eq!(info.imei2, info.imei);
    assert!(info.meid.is_empty());
}

#[test]
fn vendor_value_wins_over_plain_value() {
    let seen = table(&[
        (Property::VendorBrand, Some("acme")),
        (Property::Brand, Some("generic")),
    ]);
    assert_eq!(attestation_property(&seen, IdField::Brand), b"acme".to_vec());
    assert_eq!(attestation_id_info(&seen).brand, b"acme".to_vec());
}

#[test]
fn plain_property_is_not_consulted_when_vendor_answers() {
    let (seen, asked) = resolve_identity(&[
        ("ro.product.vendor.brand", "acme"),
        ("ro.product.vendor.device", "anvil"),
        ("ro.product.vendor.name", "anvil_x"),
        ("ro.product.vendor.manufacturer", "Acme Corp"),
        ("ro.product.vendor.model", "Anvil X"),
    ]);
    assert_eq!(
        asked,
        vec![
            "ro.product.vendor.brand",
            "ro.product.vendor.device",
            "ro.product.vendor.name",
            "ro.serialno",
            "ro.product.vendor.manufacturer",
            "ro.product.vendor.model",
        ]
    );
    let info = attestation_id_info(&seen);
    assert_eq!(info.brand, b"acme".to_vec());
    assert_eq!(info.device, b"anvil".to_vec());
    assert_eq!(info.product, b"anvil_x".to_vec());
    assert_eq!(info.manufacturer, b"Acme Corp".to_vec());
    assert_eq!(info.model, b"Anvil X".to_vec());
    assert_eq!(info.serial, b"ro.serialno unavailable".to_vec());
}

#[test]
fn missing_vendor_value_falls_back_to_plain() {
    let (seen, asked) = resolve_identity(&[("ro.product.device", "anvil")]);
    assert!(asked.contains(&"ro.product.device".to_string()));
    assert_eq!(attestation_id_info(&seen).device, b"anvil".to_vec());
}

#[test]
fn empty_vendor_value_falls_back_to_plain() {
    let (seen, asked) = resolve_identity(&[
        ("ro.product.vendor.model", ""),
        ("ro.product.model", "Anvil X"),
    ]);
    assert!(asked.contains(&"ro.product.model".to_string()));
    assert_eq!(attestation_id_info(&seen).model, b"Anvil X".to_vec());
}

#[test]
fn empty_vendor_value_and_missing_plain_give_marker() {
    let seen = table(&[
        (Property::VendorManufacturer, Some("")),
        (Property::Manufacturer, None),
    ]);
    assert_eq!(
        attestation_property(&seen, IdField::Manufacturer),
        b"ro.product.manufacturer unavailable".to_vec()
    );
}

#[test]
fn empty_plain_value_is_kept_as_it_is() {
    let seen = table(&[(Property::VendorBrand, None), (Property::Brand, Some(""))]);
    assert_eq!(attestation_property(&seen, IdField::Brand), Vec::<u8>::new());
}

#[test]
fn product_is_read_from_the_name_properties() {
    assert_eq!(IdField::Product.vendor(), Property::VendorName);
    assert_eq!(IdField::Product.plain(), Property::Name);
    let seen = table(&[(Property::VendorName, Some("anvil_x"))]);
    assert_eq!(attestation_id_info(&seen).product, b"anvil_x".to_vec());
    let seen = table(&[(Property::Name, Some("anvil_y"))]);
    assert_eq!(attestation_id_info(&seen).product, b"anvil_y".to_vec());
}

#[test]
fn serial_has_a_single_tier() {
    let seen = table(&[(Property::SerialNumber, Some("SN-0001"))]);
    assert_eq!(attestation_id_info(&seen).serial, b"SN-0001".to_vec());
    assert_eq!(direct_property(&seen, Property::SerialNumber), b"SN-0001".to_vec());
    let seen = table(&[(Property::SerialNumber, Some(""))]);
    assert_eq!(attestation_id_info(&seen).serial, Vec::<u8>::new());
    let seen = table(&[(Property::SerialNumber, None)]);
    assert_eq!(attestation_id_info(&seen).serial, b"ro.serialno unavailable".to_vec());
}

#[test]
fn values_are_taken_verbatim_as_utf8() {
    let seen = table(&[
        (Property::VendorBrand, Some("Zoë \u{1F680}")),
        (Property::Device, Some(" spaced\tout\n")),
    ]);
    let info = attestation_id_info(&seen);
    assert_eq!(info.brand, "Zoë \u{1F680}".as_bytes().to_vec());
    assert_eq!(
        info.brand,
        vec![0x5a, 0x6f, 0xc3, 0xab, 0x20, 0xf0, 0x9f, 0x9a, 0x80]
    );
    assert_eq!(info.device, b" spaced\tout\n".to_vec());
}

#[test]
fn field_tiers_name_the_right_properties() {
    let fields = [
        (IdField::Brand, "ro.product.vendor.brand", "ro.product.brand"),
        (IdField::Device, "ro.product.vendor.device", "ro.product.device"),
        (IdField::Product, "ro.product.vendor.name", "ro.product.name"),
        (
            IdField::Manufacturer,
            "ro.product.vendor.manufacturer",
            "ro.product.manufacturer",
        ),
        (IdField::Model, "ro.product.vendor.model", "ro.product.model"),
    ];
    for (field, vendor, plain) in fields {
        assert_eq!(field.vendor().name(), vendor);
        assert_eq!(field.plain().name(), plain);
    }
}

#[test]
fn identity_ignores_boot_properties() {
    let seen = table(&[
        (Property::DeviceState, Some("locked")),
        (Property::VerifiedBootState, Some("green")),
    ]);
    assert_eq!(attestation_id_info(&seen), attestation_id_info(&Lookups::new()));
}
