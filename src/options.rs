use vstd::prelude::*;

verus! {

/// What the verifier is configured with: whether manifests are validated
/// after reading, the trust-anchor bundle (PEM text), a bundle of further
/// private anchors, and the trust policy (the allowed extended key usages).
pub struct VerifyOptions {
    pub verify: bool,
    pub anchors: Option<String>,
    pub private_anchors: Option<String>,
    pub config: Option<String>,
}

/// The options every verification in this library runs with: validation on,
/// the given anchor bundle, no private anchors, and the given policy.
pub fn get_options(anchors: &str, config: &str) -> (r: VerifyOptions)
    ensures
        r.verify,
        r.anchors is Some && r.anchors->0@ == anchors@,
        r.private_anchors is None,
        r.config is Some && r.config->0@ == config@,
{
    VerifyOptions {
        verify: true,
        anchors: Some(anchors.to_owned()),
        private_anchors: None,
        config: Some(config.to_owned()),
    }
}

} // verus!
