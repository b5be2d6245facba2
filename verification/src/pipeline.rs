//! The seal-request pipeline: validation, staging-path derivation and
//! translation of the sealing outcome into an HTTP-style response.
//!
//! The pipeline is linear and terminal at the first failure: validate
//! the name, the namespace and every data key, build the manifest,
//! derive the two staged-artifact paths, and, once the surrounding
//! server has run the external sealing process, translate its outcome
//! into a response. The server performs the file writes and the process
//! invocation; every decision is made here.

use vstd::prelude::*;

use crate::manifest::{construct_secret_manifest, entries_view, manifest_text};
use crate::validate::{is_data_key, is_rfc1123_compliant, is_rfc1123_label, is_valid_data_key};
use vstd::utf8::{decode_utf8, valid_utf8};

verus! {

/// A request to seal a secret: the object's name and namespace, the
/// PEM-encoded certificate to seal with, and the plaintext entries.
#[derive(Debug, Clone)]
pub struct SecretSealRequest {
    pub name: String,
    pub namespace: String,
    pub certificate: String,
    pub data: Vec<(String, String)>,
}

/// The reason a request was rejected before any work was done.
#[derive(Debug, Clone, Copy, PartialEq, Eq, Structural)]
pub enum ValidationError {
    InvalidName,
    InvalidNamespace,
    InvalidDataKey,
}

/// An HTTP-style response: a status code and a text body.
#[derive(Debug, Clone)]
pub struct SealResponse {
    pub status: u16,
    pub body: String,
}

/// What the server must stage before invoking the sealing process: the
/// rendered manifest and the two paths to write the artifacts to.
#[derive(Debug, Clone)]
pub struct SealPlan {
    pub manifest: String,
    pub manifest_path: String,
    pub certificate_path: String,
}

/// The outcome of attempting to run the external sealing process.
#[derive(Debug, Clone)]
pub enum SealOutcome {
    /// The process could not be launched at all.
    LaunchFailure { description: String },
    /// The process ran to completion with the captured streams.
    Exited { success: bool, stdout: Vec<u8>, stderr: Vec<u8> },
}

/// The step of artifact staging that failed.
#[derive(Debug, Clone, Copy, PartialEq, Eq, Structural)]
pub enum StagingStep {
    OpenManifest,
    WriteManifest,
    WriteCertificate,
}

/// Every key of the data entries satisfies the data-key rule.
pub open spec fn all_data_keys_valid(data: Seq<(String, String)>) -> bool {
    forall|i: int| 0 <= i < data.len() ==> is_data_key(#[trigger] data[i].0@)
}

/// A request passes validation: name and namespace are labels and every
/// data key is admissible.
pub open spec fn request_valid(req: SecretSealRequest) -> bool {
    &&& is_rfc1123_label(req.name@)
    &&& is_rfc1123_label(req.namespace@)
    &&& all_data_keys_valid(req.data@)
}

/// The first rule a request breaks, in the checking order: name, then
/// namespace, then the data keys.
pub open spec fn first_validation_error(req: SecretSealRequest) -> Option<ValidationError> {
    if !is_rfc1123_label(req.name@) {
        Some(ValidationError::InvalidName)
    } else if !is_rfc1123_label(req.namespace@) {
        Some(ValidationError::InvalidNamespace)
    } else if !all_data_keys_valid(req.data@) {
        Some(ValidationError::InvalidDataKey)
    } else {
        None
    }
}

/// The message returned to the client for each validation failure.
pub open spec fn validation_message_view(e: ValidationError) -> Seq<char> {
    match e {
        ValidationError::InvalidName => "Secret name is not RFC1123 compliant."@,
        ValidationError::InvalidNamespace => "Secret namespace is not RFC1123 complient."@,
        ValidationError::InvalidDataKey => "Secret data keys must be RFC1123 complient."@,
    }
}

/// Renders the client-facing message for a validation failure.
pub fn validation_message(e: &ValidationError) -> (r: String)
    ensures
        r@ == validation_message_view(*e),
{
    match e {
        ValidationError::InvalidName => String::from_str("Secret name is not RFC1123 compliant."),
        ValidationError::InvalidNamespace => String::from_str(
            "Secret namespace is not RFC1123 complient.",
        ),
        ValidationError::InvalidDataKey => String::from_str(
            "Secret data keys must be RFC1123 complient.",
        ),
    }
}

/// Checks a request against the three rules in order and reports the
/// first failure, if any.
pub fn validate_request(req: &SecretSealRequest) -> (r: Option<ValidationError>)
    ensures
        r == first_validation_error(*req),
{
    if !is_rfc1123_compliant(req.name.as_str()) {
        return Some(ValidationError::InvalidName);
    }
    if !is_rfc1123_compliant(req.namespace.as_str()) {
        return Some(ValidationError::InvalidNamespace);
    }
    let mut i: usize = 0;
    while i < req.data.len()
        invariant
            0 <= i <= req.data@.len(),
            is_rfc1123_label(req.name@),
            is_rfc1123_label(req.namespace@),
            forall|j: int| 0 <= j < i ==> is_data_key(#[trigger] req.data@[j].0@),
        decreases req.data@.len() - i,
    {
        if !is_valid_data_key(req.data[i].0.as_str()) {
            assert(!is_data_key(req.data@[i as int].0@));
            return Some(ValidationError::InvalidDataKey);
        }
        i += 1;
    }
    None
}

/// The path the rendered manifest is staged at, derived from the
/// namespace and the name.
pub open spec fn manifest_path_view(namespace: Seq<char>, name: Seq<char>) -> Seq<char> {
    "/tmp/"@ + namespace + "-"@ + name + ".yaml"@
}

/// The path the certificate is staged at: the same stem with a
/// disambiguating suffix.
pub open spec fn certificate_path_view(namespace: Seq<char>, name: Seq<char>) -> Seq<char> {
    "/tmp/"@ + namespace + "-"@ + name + "-cert.pem"@
}

/// Derives the manifest artifact path.
pub fn manifest_path(namespace: &str, name: &str) -> (r: String)
    ensures
        r@ == manifest_path_view(namespace@, name@),
{
    let mut out = String::from_str("/tmp/");
    out.append(namespace);
    out.append("-");
    out.append(name);
    out.append(".yaml");
    out
}

/// Derives the certificate artifact path.
pub fn certificate_path(namespace: &str, name: &str) -> (r: String)
    ensures
        r@ == certificate_path_view(namespace@, name@),
{
    let mut out = String::from_str("/tmp/");
    out.append(namespace);
    out.append("-");
    out.append(name);
    out.append("-cert.pem");
    out
}

/// Validates a request and, when it passes, renders the manifest and
/// the two staging paths; when it fails, returns the client-error
/// response for the first broken rule.
pub fn plan_seal(req: &SecretSealRequest) -> (r: Result<SealPlan, SealResponse>)
    ensures
        match r {
            Ok(plan) => {
                &&& request_valid(*req)
                &&& plan.manifest@ == manifest_text(
                    req.name@,
                    req.namespace@,
                    entries_view(req.data@),
                )
                &&& plan.manifest_path@ == manifest_path_view(req.namespace@, req.name@)
                &&& plan.certificate_path@ == certificate_path_view(req.namespace@, req.name@)
            },
            Err(resp) => {
                &&& !request_valid(*req)
                &&& resp.status == 400
                &&& match first_validation_error(*req) {
                    Some(e) => resp.body@ == validation_message_view(e),
                    None => false,
                }
            },
        },
{
    match validate_request(req) {
        Some(e) => Err(SealResponse { status: 400, body: validation_message(&e) }),
        None => Ok(
            SealPlan {
                manifest: construct_secret_manifest(
                    req.name.as_str(),
                    req.namespace.as_str(),
                    &req.data,
                ),
                manifest_path: manifest_path(req.namespace.as_str(), req.name.as_str()),
                certificate_path: certificate_path(req.namespace.as_str(), req.name.as_str()),
            },
        ),
    }
}

/// The body prefix of the server error reported for each staging step.
pub open spec fn staging_prefix_view(step: StagingStep) -> Seq<char> {
    match step {
        StagingStep::OpenManifest => "failed to open secret manifest file: "@,
        StagingStep::WriteManifest => "failed to write secret manifest: "@,
        StagingStep::WriteCertificate => "failed to write certificate file: "@,
    }
}

/// Builds the server-error response for a staging failure: the step's
/// fixed prefix followed by the underlying error description.
pub fn staging_failure_response(step: &StagingStep, description: &str) -> (r: SealResponse)
    ensures
        r.status == 500,
        r.body@ == staging_prefix_view(*step) + description@,
{
    let mut body = match step {
        StagingStep::OpenManifest => String::from_str("failed to open secret manifest file: "),
        StagingStep::WriteManifest => String::from_str("failed to write secret manifest: "),
        StagingStep::WriteCertificate => String::from_str("failed to write certificate file: "),
    };
    body.append(description);
    SealResponse { status: 500, body }
}

/// Relies on std's `str::from_utf8`: it succeeds exactly on input that
/// is valid UTF-8 and yields the characters that the bytes encode.
#[verifier::external_body]
fn utf8_to_string(bytes: &Vec<u8>) -> (r: Option<String>)
    ensures
        r is Some <==> valid_utf8(bytes@),
        match r {
            Some(s) => s@ == decode_utf8(bytes@),
            None => true,
        },
{
    match std::str::from_utf8(bytes.as_slice()) {
        Ok(s) => Some(s.to_owned()),
        Err(_) => None,
    }
}

/// Translates the outcome of the sealing invocation into a response.
///
/// A launch failure and a reported process failure each become a server
/// error; a successful run returns the process's output verbatim. The
/// one input with no response is a successful run whose output is not
/// valid UTF-8: that is an internal fault the caller must treat as
/// fatal, and it is the only case in which `None` is returned.
pub fn respond_to_outcome(outcome: &SealOutcome) -> (r: Option<SealResponse>)
    ensures
        match *outcome {
            SealOutcome::LaunchFailure { description } => match r {
                Some(resp) => resp.status == 500 && resp.body@ == "failed to run kubeseal command: "@
                    + description@,
                None => false,
            },
            SealOutcome::Exited { success, stdout, stderr } => {
                if success {
                    match r {
                        Some(resp) => valid_utf8(stdout@) && resp.status == 200 && resp.body@
                            == decode_utf8(stdout@),
                        None => !valid_utf8(stdout@),
                    }
                } else {
                    match r {
                        Some(resp) => resp.status == 500 && (if valid_utf8(stderr@) {
                            resp.body@ == decode_utf8(stderr@)
                        } else {
                            resp.body@ == "unknown error"@
                        }),
                        None => false,
                    }
                }
            },
        },
{
    match outcome {
        SealOutcome::LaunchFailure { description } => {
            let mut body = String::from_str("failed to run kubeseal command: ");
            body.append(description.as_str());
            Some(SealResponse { status: 500, body })
        },
        SealOutcome::Exited { success, stdout, stderr } => {
            if *success {
                match utf8_to_string(stdout) {
                    Some(text) => Some(SealResponse { status: 200, body: text }),
                    None => None,
                }
            } else {
                match utf8_to_string(stderr) {
                    Some(text) => Some(SealResponse { status: 500, body: text }),
                    None => Some(
                        SealResponse { status: 500, body: String::from_str("unknown error") },
                    ),
                }
            }
        },
    }
}

/// The health probe's response: always 200 `HEALTHY`, whatever the rest
/// of the system's state, since it takes no input and checks nothing.
pub fn health_response() -> (r: SealResponse)
    ensures
        r.status == 200,
        r.body@ == "HEALTHY"@,
{
    SealResponse { status: 200, body: String::from_str("HEALTHY") }
}

} // verus!
