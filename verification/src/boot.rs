//! Verified-boot state, derived from the boot properties.
//!
//! Nothing here can fail. A digest that is missing or malformed is reported as
//! all zeros, an unknown lock state as unlocked, an unknown boot state as
//! unverified, and an unusable patch date as the default patch level. An
//! unlocked device always reports the all-zero key, whatever its key property
//! holds.

use crate::digest::{
    absent_digest, absent_digest_is_zero, absent_digest_text, decode_digest, spec_decode_digest,
    spec_parse_digest, zero_digest, zero_digest_bytes,
};
use crate::patchlevel::{
    absent_patchlevel, absent_patchlevel_is_default, absent_patchlevel_text, patchlevel_or_default,
    spec_extract_patchlevel, spec_patchlevel_or_default, DEFAULT_PATCHLEVEL,
};
use crate::plan::{first_open, first_open_is_open, next_lookup, spec_wanted};
use crate::property::{Lookups, Property};
use crate::text::same_text;
use vstd::prelude::*;

verus! {

/// How far the boot chain of the device was verified.
#[derive(Clone, Copy, Debug, PartialEq, Eq, Structural, Hash)]
pub enum VerifiedBootState {
    Verified,
    SelfSigned,
    Unverified,
    Failed,
}

impl VerifiedBootState {
    /// The number that stands for the state on the wire.
    pub open spec fn spec_code(self) -> i32 {
        match self {
            VerifiedBootState::Verified => 0,
            VerifiedBootState::SelfSigned => 1,
            VerifiedBootState::Unverified => 2,
            VerifiedBootState::Failed => 3,
        }
    }

    /// The number that stands for the state on the wire.
    pub fn code(self) -> (code: i32)
        ensures
            code == self.spec_code(),
    {
        match self {
            VerifiedBootState::Verified => 0,
            VerifiedBootState::SelfSigned => 1,
            VerifiedBootState::Unverified => 2,
            VerifiedBootState::Failed => 3,
        }
    }
}

/// The verified-boot state of the device.
#[derive(Clone, Debug, PartialEq, Eq)]
pub struct BootInfo {
    /// Digest of the key that verified the boot image; 32 bytes, all zero on
    /// an unlocked device.
    pub verified_boot_key: Vec<u8>,
    /// Whether the bootloader is locked.
    pub device_boot_locked: bool,
    /// How far the boot chain was verified.
    pub verified_boot_state: VerifiedBootState,
    /// Digest of the verified boot metadata; 32 bytes.
    pub verified_boot_hash: Vec<u8>,
    /// Patch level of the boot image, as `YYYYMMDD`.
    pub boot_patchlevel: u32,
}

impl BootInfo {
    /// What holds of every boot information that this library hands out:
    /// both digests have 32 bytes, and a device that is not locked has the
    /// all-zero key.
    pub open spec fn well_formed(self) -> bool {
        &&& self.verified_boot_key.len() == 32
        &&& self.verified_boot_hash.len() == 32
        &&& !self.device_boot_locked ==> self.verified_boot_key@ == zero_digest()
    }
}

/// The lock state that `value` names: `"locked"` and `"unlocked"` are the two
/// known states, any other text names none.
pub open spec fn spec_parse_device_state(value: Seq<char>) -> Option<bool> {
    if value == "locked"@ {
        Some(true)
    } else if value == "unlocked"@ {
        Some(false)
    } else {
        None
    }
}

/// The boot state that `value` names, by its colour; any other text names
/// none.
pub open spec fn spec_parse_boot_state(value: Seq<char>) -> Option<VerifiedBootState> {
    if value == "green"@ {
        Some(VerifiedBootState::Verified)
    } else if value == "yellow"@ {
        Some(VerifiedBootState::SelfSigned)
    } else if value == "orange"@ {
        Some(VerifiedBootState::Unverified)
    } else if value == "red"@ {
        Some(VerifiedBootState::Failed)
    } else {
        None
    }
}

/// The text to decode for a digest property: its value, or 64 zero digits
/// where it has none.
pub open spec fn digest_text(value: Option<Seq<char>>) -> Seq<char> {
    match value {
        Some(text) => text,
        None => absent_digest_text(),
    }
}

/// The verified boot hash that follows from `seen`.
pub open spec fn spec_verified_boot_hash(seen: Lookups) -> Seq<u8> {
    spec_decode_digest(digest_text(seen.value(Property::VbmetaDigest)))
}

/// Whether the device counts as locked: only where its state property says
/// so in as many words.
pub open spec fn spec_device_boot_locked(seen: Lookups) -> bool {
    match seen.value(Property::DeviceState) {
        Some(text) => spec_parse_device_state(text) == Some(true),
        None => false,
    }
}

/// The verified boot key that follows from `seen`: the decoded key digest on
/// a locked device, all zeros on any other.
pub open spec fn spec_verified_boot_key(seen: Lookups) -> Seq<u8> {
    if spec_device_boot_locked(seen) {
        spec_decode_digest(digest_text(seen.value(Property::PublicKeyDigest)))
    } else {
        zero_digest()
    }
}

/// The boot state that follows from `seen`: the one its property names, and
/// unverified where it names none.
pub open spec fn spec_verified_boot_state(seen: Lookups) -> VerifiedBootState {
    match seen.value(Property::VerifiedBootState) {
        Some(text) => match spec_parse_boot_state(text) {
            Some(state) => state,
            None => VerifiedBootState::Unverified,
        },
        None => VerifiedBootState::Unverified,
    }
}

/// The date to read the boot patch level from: the vendor's boot patch date
/// where the platform has one, else the OS patch date, else the stand-in.
pub open spec fn spec_patchlevel_text(seen: Lookups) -> Seq<char> {
    match seen.value(Property::VendorBootSecurityPatch) {
        Some(text) => text,
        None => match seen.value(Property::OsPatchlevel) {
            Some(text) => text,
            None => absent_patchlevel_text(),
        },
    }
}

/// The boot patch level that follows from `seen`.
pub open spec fn spec_boot_patchlevel(seen: Lookups) -> u32 {
    spec_patchlevel_or_default(spec_patchlevel_text(seen))
}

/// The boot properties, in the order in which they are consulted.
pub open spec fn boot_order() -> Seq<Property> {
    seq![
        Property::VbmetaDigest,
        Property::DeviceState,
        Property::PublicKeyDigest,
        Property::VerifiedBootState,
        Property::VendorBootSecurityPatch,
        Property::OsPatchlevel,
    ]
}

/// Reads a lock state: `Some(true)` for `"locked"`, `Some(false)` for
/// `"unlocked"`, `None` for anything else.
pub fn parse_device_state(value: &str) -> (locked: Option<bool>)
    ensures
        locked == spec_parse_device_state(value@),
{
    if same_text(value, "locked") {
        Some(true)
    } else if same_text(value, "unlocked") {
        Some(false)
    } else {
        None
    }
}

/// Reads a boot state by its colour: green, yellow, orange or red. Anything
/// else gives `None`.
pub fn parse_boot_state(value: &str) -> (state: Option<VerifiedBootState>)
    ensures
        state == spec_parse_boot_state(value@),
{
    if same_text(value, "green") {
        Some(VerifiedBootState::Verified)
    } else if same_text(value, "yellow") {
        Some(VerifiedBootState::SelfSigned)
    } else if same_text(value, "orange") {
        Some(VerifiedBootState::Unverified)
    } else if same_text(value, "red") {
        Some(VerifiedBootState::Failed)
    } else {
        None
    }
}

/// Decodes the digest that `property` holds in `seen`; a property without a
/// value is read as 64 zero digits.
fn digest_from(seen: &Lookups, property: Property) -> (digest: Vec<u8>)
    ensures
        digest@ == spec_decode_digest(digest_text(seen.value(property))),
        digest.len() == 32,
{
    match seen.found(property) {
        Some(text) => decode_digest(text),
        None => decode_digest(absent_digest()),
    }
}

/// The digest of the verified boot metadata.
pub fn verified_boot_hash(seen: &Lookups) -> (hash: Vec<u8>)
    ensures
        hash@ == spec_verified_boot_hash(*seen),
        hash.len() == 32,
{
    digest_from(seen, Property::VbmetaDigest)
}

/// Whether the bootloader is locked. Anything but a plain `"locked"` counts
/// as unlocked.
pub fn device_boot_locked(seen: &Lookups) -> (locked: bool)
    ensures
        locked == spec_device_boot_locked(*seen),
{
    match seen.found(Property::DeviceState) {
        Some(text) => match parse_device_state(text) {
            Some(locked) => locked,
            None => false,
        },
        None => false,
    }
}

/// The digest of the verified boot key. The key property is decoded only on a
/// locked device; an unlocked one reports all zeros whatever the property
/// holds.
pub fn verified_boot_key(seen: &Lookups) -> (key: Vec<u8>)
    ensures
        key@ == spec_verified_boot_key(*seen),
        key.len() == 32,
{
    if device_boot_locked(seen) {
        digest_from(seen, Property::PublicKeyDigest)
    } else {
        zero_digest_bytes()
    }
}

/// How far the boot chain was verified. A state that is missing or unknown
/// counts as unverified.
pub fn verified_boot_state(seen: &Lookups) -> (state: VerifiedBootState)
    ensures
        state == spec_verified_boot_state(*seen),
{
    match seen.found(Property::VerifiedBootState) {
        Some(text) => match parse_boot_state(text) {
            Some(state) => state,
            None => VerifiedBootState::Unverified,
        },
        None => VerifiedBootState::Unverified,
    }
}

/// The patch level of the boot image: read from the vendor's boot patch date
/// where the platform has one, else from the OS patch date, else from the
/// stand-in date; and the default where the date chosen cannot be read.
pub fn boot_patchlevel(seen: &Lookups) -> (level: u32)
    ensures
        level == spec_boot_patchlevel(*seen),
{
    let text = match seen.found(Property::VendorBootSecurityPatch) {
        Some(text) => text,
        None => match seen.found(Property::OsPatchlevel) {
            Some(text) => text,
            None => absent_patchlevel(),
        },
    };
    patchlevel_or_default(text)
}

/// The verified-boot state that follows from the lookups in `seen`. A
/// property that was not looked up counts as one the platform does not have.
pub fn get_boot_info(seen: &Lookups) -> (info: BootInfo)
    ensures
        info.verified_boot_hash@ == spec_verified_boot_hash(*seen),
        info.device_boot_locked == spec_device_boot_locked(*seen),
        info.verified_boot_key@ == spec_verified_boot_key(*seen),
        info.verified_boot_state == spec_verified_boot_state(*seen),
        info.boot_patchlevel == spec_boot_patchlevel(*seen),
        info.well_formed(),
{
    let verified_boot_hash = verified_boot_hash(seen);
    let device_boot_locked = device_boot_locked(seen);
    let verified_boot_key = verified_boot_key(seen);
    let verified_boot_state = verified_boot_state(seen);
    let boot_patchlevel = boot_patchlevel(seen);
    BootInfo {
        verified_boot_key,
        device_boot_locked,
        verified_boot_state,
        verified_boot_hash,
        boot_patchlevel,
    }
}

/// The boot property to look up next, or `None` once [`get_boot_info`] has
/// all it reads. The OS patch date is asked for only after the vendor's boot
/// patch date was found missing.
pub fn next_boot_lookup(seen: &Lookups) -> (next: Option<Property>)
    ensures
        next == first_open(*seen, boot_order()),
{
    let order = [
        Property::VbmetaDigest,
        Property::DeviceState,
        Property::PublicKeyDigest,
        Property::VerifiedBootState,
        Property::VendorBootSecurityPatch,
        Property::OsPatchlevel,
    ];
    assert(order@ =~= boot_order());
    next_lookup(seen, order.as_slice())
}

/// Both digests have 32 bytes, whatever the lookups gave.
pub proof fn digests_have_32_bytes(seen: Lookups)
    ensures
        spec_verified_boot_hash(seen).len() == 32,
        spec_verified_boot_key(seen).len() == 32,
{
}

/// A device that does not count as locked reports the all-zero key,
/// whatever its key property holds.
pub proof fn unlocked_key_is_zero(seen: Lookups)
    requires
        !spec_device_boot_locked(seen),
    ensures
        spec_verified_boot_key(seen) == zero_digest(),
{
}

/// A locked device whose key property spells a digest reports that digest.
pub proof fn locked_key_is_decoded(seen: Lookups, text: Seq<char>)
    requires
        spec_device_boot_locked(seen),
        seen.value(Property::PublicKeyDigest) == Some(text),
        spec_parse_digest(text) is Some,
    ensures
        spec_verified_boot_key(seen) == spec_parse_digest(text).unwrap(),
{
}

/// A locked device whose key property is missing or spells no digest reports
/// the all-zero key.
pub proof fn locked_key_defaults_to_zero(seen: Lookups)
    requires
        spec_device_boot_locked(seen),
        seen.value(Property::PublicKeyDigest) matches Some(text) ==> spec_parse_digest(text) is None,
    ensures
        spec_verified_boot_key(seen) == zero_digest(),
{
    absent_digest_is_zero();
}

/// A hash property that is missing or spells no digest gives the all-zero
/// hash.
pub proof fn hash_defaults_to_zero(seen: Lookups)
    requires
        seen.value(Property::VbmetaDigest) matches Some(text) ==> spec_parse_digest(text) is None,
    ensures
        spec_verified_boot_hash(seen) == zero_digest(),
{
    absent_digest_is_zero();
}

/// The device counts as locked exactly where its state property holds the
/// word `locked`.
pub proof fn locked_only_when_said(seen: Lookups)
    ensures
        spec_device_boot_locked(seen) <==> seen.value(Property::DeviceState) == Some("locked"@),
        spec_parse_device_state("locked"@) == Some(true),
        spec_parse_device_state("unlocked"@) == Some(false),
{
    reveal_strlit("locked");
    reveal_strlit("unlocked");
    assert("locked"@.len() == 6 && "unlocked"@.len() == 8);
}

/// The four colours name the four states, in the order of their codes.
pub proof fn colours_name_states()
    ensures
        spec_parse_boot_state("green"@) == Some(VerifiedBootState::Verified),
        spec_parse_boot_state("yellow"@) == Some(VerifiedBootState::SelfSigned),
        spec_parse_boot_state("orange"@) == Some(VerifiedBootState::Unverified),
        spec_parse_boot_state("red"@) == Some(VerifiedBootState::Failed),
        VerifiedBootState::Verified.spec_code() == 0,
        VerifiedBootState::SelfSigned.spec_code() == 1,
        VerifiedBootState::Unverified.spec_code() == 2,
        VerifiedBootState::Failed.spec_code() == 3,
{
    reveal_strlit("green");
    reveal_strlit("yellow");
    reveal_strlit("orange");
    reveal_strlit("red");
    assert("green"@.len() == 5 && "red"@.len() == 3);
    assert("yellow"@[0] == 'y' && "orange"@[0] == 'o');
}

/// The boot state is the one that the state property names by its colour.
pub proof fn known_boot_state_is_kept(seen: Lookups, text: Seq<char>)
    requires
        seen.value(Property::VerifiedBootState) == Some(text),
        spec_parse_boot_state(text) is Some,
    ensures
        spec_verified_boot_state(seen) == spec_parse_boot_state(text).unwrap(),
{
}

/// A boot state property that is missing, or holds anything but one of the
/// four colours, gives the unverified state, whose code is 2.
pub proof fn unknown_boot_state_is_unverified(seen: Lookups)
    requires
        seen.value(Property::VerifiedBootState) matches Some(text) ==> text != "green"@ && text
            != "yellow"@ && text != "orange"@ && text != "red"@,
    ensures
        spec_verified_boot_state(seen) == VerifiedBootState::Unverified,
        spec_verified_boot_state(seen).spec_code() == 2,
{
}

/// Where the vendor's boot patch date is missing, the OS patch date is wanted
/// once that is known, and the patch level is read from it.
pub proof fn patchlevel_falls_back_to_os(seen: Lookups, text: Seq<char>)
    requires
        seen.value(Property::VendorBootSecurityPatch) is None,
        seen.value(Property::OsPatchlevel) == Some(text),
    ensures
        seen.asked(Property::VendorBootSecurityPatch) ==> spec_wanted(seen, Property::OsPatchlevel),
        spec_boot_patchlevel(seen) == spec_patchlevel_or_default(text),
{
}

/// Where neither patch date can be had, and where the date chosen cannot be
/// read, the patch level is the default.
pub proof fn patchlevel_defaults(seen: Lookups)
    requires
        (seen.value(Property::VendorBootSecurityPatch) is None && seen.value(
            Property::OsPatchlevel,
        ) is None) || spec_extract_patchlevel(spec_patchlevel_text(seen)) is None,
    ensures
        spec_boot_patchlevel(seen) == DEFAULT_PATCHLEVEL,
        spec_boot_patchlevel(seen) == 19700919,
{
    absent_patchlevel_is_default();
}

/// With no property to be had at all, the device is reported unlocked and
/// unverified, with all-zero digests and the default patch level.
pub proof fn nothing_known(seen: Lookups)
    requires
        forall|p: Property| seen.value(p) is None,
    ensures
        spec_verified_boot_hash(seen) == zero_digest(),
        !spec_device_boot_locked(seen),
        spec_verified_boot_key(seen) == zero_digest(),
        spec_verified_boot_state(seen) == VerifiedBootState::Unverified,
        spec_boot_patchlevel(seen) == DEFAULT_PATCHLEVEL,
{
    absent_digest_is_zero();
    absent_patchlevel_is_default();
}

/// Once the plan asks for nothing more, the boot information is settled: a
/// table that keeps every outcome of `seen` and adds others gives the same
/// values.
pub proof fn boot_info_is_settled(seen: Lookups, later: Lookups)
    requires
        first_open(seen, boot_order()) is None,
        forall|p: Property| seen.asked(p) ==> later.slot(p) == seen.slot(p),
    ensures
        spec_verified_boot_hash(later) == spec_verified_boot_hash(seen),
        spec_device_boot_locked(later) == spec_device_boot_locked(seen),
        spec_verified_boot_key(later) == spec_verified_boot_key(seen),
        spec_verified_boot_state(later) == spec_verified_boot_state(seen),
        spec_boot_patchlevel(later) == spec_boot_patchlevel(seen),
{
    first_open_is_open(seen, boot_order());
    let order = boot_order();
    assert(order[0] == Property::VbmetaDigest && order[1] == Property::DeviceState);
    assert(order[2] == Property::PublicKeyDigest && order[3] == Property::VerifiedBootState);
    assert(order[4] == Property::VendorBootSecurityPatch && order[5] == Property::OsPatchlevel);
}

} // verus!
