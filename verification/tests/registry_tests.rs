use boh::error::PublishError;
use boh::registry::{blob_url, interpret_response, manifest_url, ManifestPut};

#[test]
fn manifest_endpoint_url() {
    assert_eq!(
        manifest_url("europe", "my-repo", "svc", "v1").as_str(),
        "https://europe-docker.pkg.dev/v2/my-repo/svc/manifests/v1"
    );
}

#[test]
fn manifest_endpoint_url_by_digest() {
    assert_eq!(
        manifest_url("us", "r", "n", "sha256:00ff").as_str(),
        "https://us-docker.pkg.dev/v2/r/n/manifests/sha256:00ff"
    );
}

#[test]
fn blob_endpoint_url() {
    assert_eq!(
        blob_url("us", "my-repo", "svc", "sha256:abcd").as_str(),
        "https://us-docker.pkg.dev/v2/my-repo/svc/blobs/sha256:abcd"
    );
}

#[test]
fn success_response_returns_exact_bytes() {
    let body = vec![1u8, 2, 3];
    assert_eq!(interpret_response(200, body.clone()), Ok(body.clone()));
    assert_eq!(interpret_response(299, body.clone()), Ok(body));
}

#[test]
fn failure_response_with_text_body() {
    let r = interpret_response(404, b"manifest unknown".to_vec());
    let e = r.unwrap_err();
    assert_eq!(
        e,
        PublishError::Registry { status: 404, message: Some("manifest unknown".to_string()) }
    );
    assert_eq!(e.message().as_str(), "manifest unknown");
}

#[test]
fn failure_response_with_binary_body() {
    let r = interpret_response(500, vec![0xff, 0xfe, 0x00]);
    let e = r.unwrap_err();
    assert_eq!(e, PublishError::Registry { status: 500, message: None });
    assert_eq!(e.message().as_str(), "failed to retrieve error for 500");
}

#[test]
fn status_edges() {
    assert!(interpret_response(199, Vec::new()).is_err());
    assert!(interpret_response(300, Vec::new()).is_err());
    assert!(interpret_response(204, Vec::new()).is_ok());
}

#[test]
fn put_url_addresses_its_coordinate() {
    let put = ManifestPut {
        repo: "r".to_string(),
        name: "n".to_string(),
        reference: "sha256:aa".to_string(),
        content_type: "application/vnd.oci.image.manifest.v1+json".to_string(),
        body: vec![1],
    };
    assert_eq!(
        put.url("asia").as_str(),
        "https://asia-docker.pkg.dev/v2/r/n/manifests/sha256:aa"
    );
}
