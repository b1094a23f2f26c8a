//! Verification of content-provenance manifests carried by (or detached from)
//! media assets, configured with fixed trust anchors and a trust policy.
//!
//! The library builds the verifier's options, renders them into the settings
//! document that the c2pa verifier reads, and hands the asset bytes to that
//! verifier, mapping its failures into this crate's own error type.

mod options;
mod settings;
mod provenance;
mod store;

pub use options::{get_options, VerifyOptions};
pub use settings::{json_escaped, json_escaped_char, json_hex_digit, json_string, push_json_string, settings_doc, settings_document};
pub use provenance::{
    get_manifest_store_data, get_manifest_store_data_from_manifest_and_asset_bytes, is_settings_error,
    verification_result, verifier_context, ManifestError,
};
pub use store::{settings_accepted, ManifestStore, Verifier};
