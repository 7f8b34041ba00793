//! Attestation identity and verified-boot state for a device whose facts live
//! in named platform properties.
//!
//! The library never reads a property itself. A caller asks which property is
//! wanted next, looks it up wherever properties live, and records the outcome
//! in a [`Lookups`] table; once nothing more is wanted the table is turned
//! into an [`AttestationIdInfo`] or a [`BootInfo`]. Every derivation is total:
//! a missing or malformed property degrades to a fixed, maximally distrustful
//! value and never to an error.

pub mod boot;
pub mod digest;
pub mod identity;
pub mod patchlevel;
pub mod plan;
pub mod property;
pub mod text;

pub use boot::{get_boot_info, next_boot_lookup, BootInfo, VerifiedBootState};
pub use identity::{attestation_id_info, next_identity_lookup, AttestationIdInfo, IdField};
pub use property::{Lookup, Lookups, Property};
