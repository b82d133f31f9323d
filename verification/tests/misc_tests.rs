use boh::coord::ImageCoordinate;
use boh::kms::{decrypt_url, encrypt_url, Args, Decrypt, Encrypt, KeyInfo};
use boh::kubectl::make_url;
use boh::rollout::{parse_resource, restart_patch};
use boh::Scopes;

#[test]
fn parse_resource_accepts_a_deployment() {
    let (kind, name) = parse_resource("deployment/my-service").unwrap();
    assert_eq!(kind.as_str(), "deployments");
    assert_eq!(name.as_str(), "my-service");
}

#[test]
fn parse_resource_keeps_later_slashes_in_the_name() {
    let (kind, name) = parse_resource("deployment/a/b").unwrap();
    assert_eq!(kind.as_str(), "deployments");
    assert_eq!(name.as_str(), "a/b");
}

#[test]
fn parse_resource_needs_a_slash() {
    assert_eq!(
        parse_resource("deployment").unwrap_err().as_str(),
        "resource must be specified as <kind>/<name>"
    );
}

#[test]
fn parse_resource_rejects_unknown_kinds() {
    assert_eq!(
        parse_resource("statefulset/foo").unwrap_err().as_str(),
        "unknown resource kind 'statefulset'"
    );
}

#[test]
fn parse_resource_needs_a_name() {
    assert_eq!(
        parse_resource("deployment/").unwrap_err().as_str(),
        "the resource name was not provided"
    );
}

#[test]
fn restart_patch_document() {
    let patch = restart_patch("2024-05-01T12:00:00Z");
    assert_eq!(
        patch.as_str(),
        "{\"spec\":{\"template\":{\"metadata\":{\"annotations\":\
         {\"boh.kubernetes.io/restartedAt\":\"2024-05-01T12:00:00Z\"}}}}}"
    );
    let v: serde_json::Value = serde_json::from_str(patch.as_str()).unwrap();
    let ts = v
        .get("spec").unwrap()
        .get("template").unwrap()
        .get("metadata").unwrap()
        .get("annotations").unwrap()
        .get("boh.kubernetes.io/restartedAt").unwrap();
    assert_eq!(ts.as_str(), Some("2024-05-01T12:00:00Z"));
}

#[test]
fn resource_url() {
    assert_eq!(
        make_url("https://1.2.3.4", "prod", "deployments", "my-svc").as_str(),
        "https://1.2.3.4/apis/apps/v1/namespaces/prod/deployments/my-svc?"
    );
}

#[test]
fn coordinate_label() {
    let c = ImageCoordinate {
        repo: Some("r".to_string()),
        name: "svc".to_string(),
        tag: "v1".to_string(),
    };
    assert_eq!(c.label().as_str(), "svc:v1");
}

#[test]
fn coordinate_list_labels() {
    let c = |name: &str, tag: &str| ImageCoordinate {
        repo: None,
        name: name.to_string(),
        tag: tag.to_string(),
    };
    assert_eq!(boh::coord::labels(&Vec::new()).as_str(), "");
    assert_eq!(boh::coord::labels(&vec![c("svc", "v1")]).as_str(), "svc:v1");
    assert_eq!(
        boh::coord::labels(&vec![c("svc", "v1"), c("svc", "prod"), c("web", "v2")]).as_str(),
        "svc:v1, svc:prod, web:v2"
    );
}

fn key_info() -> KeyInfo {
    KeyInfo {
        key: "k".to_string(),
        keyring: "ring".to_string(),
        location: "loc".to_string(),
        project: "proj".to_string(),
    }
}

#[test]
fn kms_endpoints() {
    assert_eq!(
        encrypt_url(&key_info()).as_str(),
        "https://cloudkms.googleapis.com/v1/projects/proj/locations/loc/keyRings/ring/cryptoKeys/k:encrypt"
    );
    assert_eq!(
        decrypt_url(&key_info()).as_str(),
        "https://cloudkms.googleapis.com/v1/projects/proj/locations/loc/keyRings/ring/cryptoKeys/k:decrypt"
    );
}

#[test]
fn kms_scopes() {
    let args = Args::Encrypt(Encrypt {
        key_info: key_info(),
        input: "in.txt".to_string(),
        output: "out.bin".to_string(),
    });
    assert_eq!(args.scopes(), &["https://www.googleapis.com/auth/cloudkms"]);
    let args = Args::Decrypt(Decrypt {
        key_info: key_info(),
        input: "out.bin".to_string(),
        output: "in.txt".to_string(),
    });
    assert_eq!(args.scopes(), &["https://www.googleapis.com/auth/cloudkms"]);
}
