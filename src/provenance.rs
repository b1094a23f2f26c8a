use vstd::prelude::*;

use crate::options::VerifyOptions;
use crate::settings::{settings_doc, settings_document};
use crate::store::{apply_settings, read_asset, read_detached, settings_accepted, ManifestStore, Verifier};

verus! {

/// A failure of this library: the verifier refused its settings, or the
/// verification of an asset failed (malformed asset, missing manifest,
/// signature or trust failure, unsupported format).
pub enum ManifestError {
    Settings(c2pa::Error),
    Verification(c2pa::Error),
}

/// Whether `r` is a refusal of the settings.
pub open spec fn is_settings_error<T>(r: Result<T, ManifestError>) -> bool {
    r is Err && r->Err_0 is Settings
}

/// The result of a verification as this library reports it: the store as
/// it came, or the verifier's error as a verification failure.
pub fn verification_result(r: Result<ManifestStore, c2pa::Error>) -> (out: Result<ManifestStore, ManifestError>)
    ensures
        match r {
            Ok(store) => out == Ok::<ManifestStore, ManifestError>(store),
            Err(e) => out == Err::<ManifestStore, ManifestError>(ManifestError::Verification(e)),
        },
{
    match r {
        Ok(store) => Ok(store),
        Err(e) => Err(ManifestError::Verification(e)),
    }
}

/// A verifier configured with the settings document of `options`; fails
/// exactly when the verifier refuses that document.
pub fn verifier_context(options: &VerifyOptions) -> (r: Result<Verifier, ManifestError>)
    ensures
        r is Ok <==> settings_accepted(settings_doc(*options)),
        r is Ok ==> r->Ok_0.settings() == settings_doc(*options),
        r is Err ==> r->Err_0 is Settings,
{
    let doc = settings_document(options);
    match apply_settings(c2pa::Context::new(), doc.as_str()) {
        Ok(verifier) => Ok(verifier),
        Err(e) => Err(ManifestError::Settings(e)),
    }
}

/// Reads and validates the manifest store embedded in `data`, an asset of
/// the given MIME type, with a verifier configured by `options`. A store
/// that comes back was read from exactly these bytes and MIME type under the
/// settings document of `options`, whatever the asset holds.
pub fn get_manifest_store_data(data: &[u8], mime_type: &str, options: &VerifyOptions) -> (r: Result<
    ManifestStore,
    ManifestError,
>)
    ensures
        is_settings_error(r) <==> !settings_accepted(settings_doc(*options)),
        r is Ok ==> r->Ok_0.settings() == settings_doc(*options),
        r is Ok ==> r->Ok_0.format() == mime_type@,
        r is Ok ==> r->Ok_0.asset() == data@,
        r is Ok ==> r->Ok_0.detached() is None,
{
    match verifier_context(options) {
        Ok(verifier) => verification_result(read_asset(verifier, mime_type, data)),
        Err(e) => Err(e),
    }
}

/// Validates the detached manifest store `manifest_bytes` against
/// `asset_bytes`, an asset of the given format, with a verifier configured by
/// `options`. A store that comes back was read from exactly this manifest
/// store, format and asset under the settings document of `options`.
pub fn get_manifest_store_data_from_manifest_and_asset_bytes(
    manifest_bytes: &[u8],
    format: &str,
    asset_bytes: &[u8],
    options: &VerifyOptions,
) -> (r: Result<ManifestStore, ManifestError>)
    ensures
        is_settings_error(r) <==> !settings_accepted(settings_doc(*options)),
        r is Ok ==> r->Ok_0.settings() == settings_doc(*options),
        r is Ok ==> r->Ok_0.format() == format@,
        r is Ok ==> r->Ok_0.asset() == asset_bytes@,
        r is Ok ==> r->Ok_0.detached() == Some(manifest_bytes@),
{
    match verifier_context(options) {
        Ok(verifier) => verification_result(read_detached(verifier, manifest_bytes, format, asset_bytes)),
        Err(e) => Err(e),
    }
}

} // verus!
