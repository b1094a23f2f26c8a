use vstd::prelude::*;

verus! {

#[verifier::external_type_specification]
#[verifier::external_body]
pub struct ExContext(c2pa::Context);

#[verifier::external_type_specification]
#[verifier::external_body]
pub struct ExReader(c2pa::Reader);

#[verifier::external_type_specification]
#[verifier::external_body]
pub struct ExC2paError(c2pa::Error);

/// Whether the c2pa verifier accepts `doc` as its settings: the document
/// parses, and each anchor bundle that it names loads.
pub uninterp spec fn settings_accepted(doc: Seq<char>) -> bool;

/// Relies on `c2pa::Context::new`: a context with the default settings.
pub assume_specification[ c2pa::Context::new ]() -> c2pa::Context;

/// A verifier context, with the settings document that configured it.
/// Its fields are private: only `apply_settings` makes one.
pub struct Verifier {
    context: c2pa::Context,
    settings: Ghost<Seq<char>>,
}

impl Verifier {
    /// The settings document this verifier was configured with.
    pub closed spec fn settings(self) -> Seq<char> {
        self.settings@
    }
}

/// A manifest store that the verifier read and validated, with what it was
/// read from: the verifier's settings document, the format, the asset bytes,
/// and the detached manifest store where there was one.
/// Its fields are private: only `read_asset` and `read_detached` make one.
pub struct ManifestStore {
    reader: c2pa::Reader,
    settings: Ghost<Seq<char>>,
    format: Ghost<Seq<char>>,
    asset: Ghost<Seq<u8>>,
    detached: Ghost<Option<Seq<u8>>>,
}

impl ManifestStore {
    pub closed spec fn settings(self) -> Seq<char> {
        self.settings@
    }

    pub closed spec fn format(self) -> Seq<char> {
        self.format@
    }

    pub closed spec fn asset(self) -> Seq<u8> {
        self.asset@
    }

    pub closed spec fn detached(self) -> Option<Seq<u8>> {
        self.detached@
    }

    /// The verifier's reader of the manifest store.
    pub fn reader(&self) -> &c2pa::Reader {
        &self.reader
    }

    pub fn into_reader(self) -> c2pa::Reader {
        self.reader
    }
}

/// Relies on `c2pa::Context::with_settings` on a `&str`: the document is
/// parsed (as JSON, else as TOML) over the default settings, and the anchor
/// bundles are loaded; the outcome depends on the document alone, and the
/// context returned carries those settings.
#[verifier::external_body]
pub(crate) fn apply_settings(context: c2pa::Context, doc: &str) -> (r: Result<Verifier, c2pa::Error>)
    ensures
        r is Ok <==> settings_accepted(doc@),
        r is Ok ==> r->Ok_0.settings() == doc@,
{
    match context.with_settings(doc) {
        Ok(context) => Ok(Verifier { context, settings: Ghost(doc@) }),
        Err(e) => Err(e),
    }
}

/// Relies on `c2pa::Reader::from_context` and `c2pa::Reader::with_stream`:
/// a reader bound to the verifier's context reads and validates the manifest
/// store embedded in the asset bytes. The outcome depends also on the time
/// at which certificates are checked, so only what it was read from is stated.
#[verifier::external_body]
pub(crate) fn read_asset(verifier: Verifier, format: &str, data: &[u8]) -> (r: Result<ManifestStore, c2pa::Error>)
    ensures
        r is Ok ==> r->Ok_0.settings() == verifier.settings(),
        r is Ok ==> r->Ok_0.format() == format@,
        r is Ok ==> r->Ok_0.asset() == data@,
        r is Ok ==> r->Ok_0.detached() is None,
{
    let settings = verifier.settings;
    match c2pa::Reader::from_context(verifier.context).with_stream(format, std::io::Cursor::new(data)) {
        Ok(reader) => Ok(ManifestStore { reader, settings, format: Ghost(format@), asset: Ghost(data@), detached: Ghost(None) }),
        Err(e) => Err(e),
    }
}

/// Relies on `c2pa::Reader::from_context` and
/// `c2pa::Reader::with_manifest_data_and_stream`: a reader bound to the
/// verifier's context validates a detached manifest store against the asset
/// bytes. As for `read_asset`, only what it was read from is stated.
#[verifier::external_body]
pub(crate) fn read_detached(
    verifier: Verifier,
    manifest_bytes: &[u8],
    format: &str,
    asset_bytes: &[u8],
) -> (r: Result<ManifestStore, c2pa::Error>)
    ensures
        r is Ok ==> r->Ok_0.settings() == verifier.settings(),
        r is Ok ==> r->Ok_0.format() == format@,
        r is Ok ==> r->Ok_0.asset() == asset_bytes@,
        r is Ok ==> r->Ok_0.detached() == Some(manifest_bytes@),
{
    let settings = verifier.settings;
    let reader = c2pa::Reader::from_context(verifier.context);
    match reader.with_manifest_data_and_stream(manifest_bytes, format, std::io::Cursor::new(asset_bytes)) {
        Ok(reader) => Ok(ManifestStore {
            reader,
            settings,
            format: Ghost(format@),
            asset: Ghost(asset_bytes@),
            detached: Ghost(Some(manifest_bytes@)),
        }),
        Err(e) => Err(e),
    }
}

} // verus!
