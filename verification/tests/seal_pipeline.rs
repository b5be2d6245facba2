use secret_sealer::manifest::construct_secret_manifest;
use secret_sealer::pipeline::{
    certificate_path, health_response, manifest_path, plan_seal, respond_to_outcome,
    staging_failure_response, validate_request, validation_message, SealOutcome,
    SecretSealRequest, StagingStep, ValidationError,
};

fn request(name: &str, namespace: &str, data: Vec<(&str, &str)>) -> SecretSealRequest {
    SecretSealRequest {
        name: name.to_string(),
        namespace: namespace.to_string(),
        certificate: "-----BEGIN CERTIFICATE-----\nMIIB\n-----END CERTIFICATE-----\n".to_string(),
        data: data
            .into_iter()
            .map(|(k, v)| (k.to_string(), v.to_string()))
            .collect(),
    }
}

#[test]
fn manifest_exact_text() {
    let data = vec![("password".to_string(), "hunter2".to_string())];
    let m = construct_secret_manifest("my-secret", "default", &data);
    assert_eq!(
        m,
        "apiVersion: v1\nkind: Secret\nmetadata:\n  name: my-secret\n  namespace: default\ntype: Opaque\nstringData:\n  password: |-\n    hunter2"
    );
}

#[test]
fn manifest_two_entries() {
    let data = vec![
        ("user".to_string(), "alice".to_string()),
        ("token".to_string(), "t0k3n".to_string()),
    ];
    let m = construct_secret_manifest("s", "ns", &data);
    assert_eq!(
        m,
        "apiVersion: v1\nkind: Secret\nmetadata:\n  name: s\n  namespace: ns\ntype: Opaque\nstringData:\n  user: |-\n    alice\n  token: |-\n    t0k3n"
    );
}

#[test]
fn manifest_empty_data_has_no_content_section() {
    let data: Vec<(String, String)> = Vec::new();
    let m = construct_secret_manifest("s", "ns", &data);
    assert_eq!(
        m,
        "apiVersion: v1\nkind: Secret\nmetadata:\n  name: s\n  namespace: ns\ntype: Opaque"
    );
    assert!(!m.contains("stringData"));
}

#[test]
fn manifest_is_deterministic() {
    let data = vec![("k".to_string(), "v".to_string())];
    let a = construct_secret_manifest("s", "ns", &data);
    let b = construct_secret_manifest("s", "ns", &data);
    assert_eq!(a, b);
}

#[test]
fn manifest_preserves_embedded_newlines() {
    let data = vec![("config".to_string(), "line1\nline2\nline3".to_string())];
    let m = construct_secret_manifest("s", "ns", &data);
    assert!(m.contains("line1\nline2\nline3"));
    assert!(m.ends_with("  config: |-\n    line1\nline2\nline3"));
}

#[test]
fn scenario_valid_request_seals() {
    let req = request("my-secret", "default", vec![("password", "hunter2")]);
    let plan = plan_seal(&req).expect("a valid request must yield a plan");
    assert_eq!(plan.manifest_path, "/tmp/default-my-secret.yaml");
    assert_eq!(plan.certificate_path, "/tmp/default-my-secret-cert.pem");
    assert!(plan.manifest.contains("  password: |-\n    hunter2"));
    let outcome = SealOutcome::Exited {
        success: true,
        stdout: b"sealed document".to_vec(),
        stderr: Vec::new(),
    };
    let resp = respond_to_outcome(&outcome).expect("valid output must yield a response");
    assert_eq!(resp.status, 200);
    assert_eq!(resp.body, "sealed document");
}

#[test]
fn scenario_bad_name_rejected() {
    let req = request("My_Secret", "default", vec![("password", "hunter2")]);
    let resp = plan_seal(&req).expect_err("an invalid name must be rejected");
    assert_eq!(resp.status, 400);
    assert_eq!(resp.body, "Secret name is not RFC1123 compliant.");
}

#[test]
fn scenario_bad_namespace_rejected() {
    let req = request("my-secret", "Default!", vec![]);
    let resp = plan_seal(&req).expect_err("an invalid namespace must be rejected");
    assert_eq!(resp.status, 400);
    assert_eq!(resp.body, "Secret namespace is not RFC1123 complient.");
}

#[test]
fn scenario_bad_data_key_rejected() {
    let req = request("my-secret", "default", vec![("bad/key", "x")]);
    let resp = plan_seal(&req).expect_err("an invalid data key must be rejected");
    assert_eq!(resp.status, 400);
    assert_eq!(resp.body, "Secret data keys must be RFC1123 complient.");
}

#[test]
fn scenario_launch_failure_is_server_error() {
    let outcome = SealOutcome::LaunchFailure {
        description: "No such file or directory (os error 2)".to_string(),
    };
    let resp = respond_to_outcome(&outcome).expect("a launch failure always has a response");
    assert_eq!(resp.status, 500);
    assert_eq!(
        resp.body,
        "failed to run kubeseal command: No such file or directory (os error 2)"
    );
}

#[test]
fn scenario_tool_failure_returns_stderr() {
    let outcome = SealOutcome::Exited {
        success: false,
        stdout: Vec::new(),
        stderr: b"invalid certificate".to_vec(),
    };
    let resp = respond_to_outcome(&outcome).expect("a reported failure always has a response");
    assert_eq!(resp.status, 500);
    assert_eq!(resp.body, "invalid certificate");
}

#[test]
fn undecodable_stderr_falls_back() {
    let outcome = SealOutcome::Exited {
        success: false,
        stdout: Vec::new(),
        stderr: vec![0xff, 0xfe, 0x80],
    };
    let resp = respond_to_outcome(&outcome).expect("a reported failure always has a response");
    assert_eq!(resp.status, 500);
    assert_eq!(resp.body, "unknown error");
}

#[test]
fn undecodable_stdout_is_fatal() {
    let outcome = SealOutcome::Exited {
        success: true,
        stdout: vec![0xff, 0xfe, 0x80],
        stderr: Vec::new(),
    };
    assert!(respond_to_outcome(&outcome).is_none());
}

#[test]
fn validation_checks_name_first() {
    let req = request("Bad Name", "Bad Namespace", vec![("bad/key", "x")]);
    assert_eq!(validate_request(&req), Some(ValidationError::InvalidName));
    let req = request("good-name", "Bad Namespace", vec![("bad/key", "x")]);
    assert_eq!(
        validate_request(&req),
        Some(ValidationError::InvalidNamespace)
    );
    let req = request("good-name", "good-namespace", vec![("bad/key", "x")]);
    assert_eq!(validate_request(&req), Some(ValidationError::InvalidDataKey));
    let req = request("good-name", "good-namespace", vec![("good.key", "x")]);
    assert_eq!(validate_request(&req), None);
}

#[test]
fn validation_messages_are_fixed() {
    assert_eq!(
        validation_message(&ValidationError::InvalidName),
        "Secret name is not RFC1123 compliant."
    );
    assert_eq!(
        validation_message(&ValidationError::InvalidNamespace),
        "Secret namespace is not RFC1123 complient."
    );
    assert_eq!(
        validation_message(&ValidationError::InvalidDataKey),
        "Secret data keys must be RFC1123 complient."
    );
}

#[test]
fn staging_paths_are_deterministic() {
    assert_eq!(manifest_path("ns", "name"), "/tmp/ns-name.yaml");
    assert_eq!(certificate_path("ns", "name"), "/tmp/ns-name-cert.pem");
}

#[test]
fn staging_failures_carry_their_step() {
    let resp = staging_failure_response(&StagingStep::OpenManifest, "permission denied");
    assert_eq!(resp.status, 500);
    assert_eq!(
        resp.body,
        "failed to open secret manifest file: permission denied"
    );
    let resp = staging_failure_response(&StagingStep::WriteManifest, "disk full");
    assert_eq!(resp.status, 500);
    assert_eq!(resp.body, "failed to write secret manifest: disk full");
    let resp = staging_failure_response(&StagingStep::WriteCertificate, "path too long");
    assert_eq!(resp.status, 500);
    assert_eq!(resp.body, "failed to write certificate file: path too long");
}

#[test]
fn health_is_always_healthy() {
    let resp = health_response();
    assert_eq!(resp.status, 200);
    assert_eq!(resp.body, "HEALTHY");
}

#[test]
fn empty_data_request_is_valid() {
    let req = request("my-secret", "default", vec![]);
    let plan = plan_seal(&req).expect("an empty data section is allowed");
    assert!(!plan.manifest.contains("stringData"));
}
