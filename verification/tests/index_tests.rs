use boh::index::{
    assemble, entry_json, index_media_type, index_to_json, json_string, make_index_entry,
    manifest_media_type, IndexEntry,
};
use boh::manifest::Platform;
use boh::text::u64_to_dec;

fn entry(digest: &str, size: u64, arch: &str, variant: Option<&str>) -> IndexEntry {
    make_index_entry(
        digest.to_string(),
        size,
        Platform {
            architecture: arch.to_string(),
            os: "linux".to_string(),
            variant: variant.map(str::to_string),
        },
    )
}

#[test]
fn index_construction_from_two_sources() {
    let d1 = "sha256:1111111111111111111111111111111111111111111111111111111111111111";
    let d2 = "sha256:2222222222222222222222222222222222222222222222222222222222222222";
    let entries = vec![entry(d1, 429, "amd64", None), entry(d2, 430, "arm64", None)];
    let ix = assemble(entries);
    assert_eq!(ix.schema_version, 2);
    assert_eq!(ix.media_type.as_str(), "application/vnd.oci.image.index.v1+json");
    assert_eq!(ix.manifests.len(), 2);
    assert_eq!(ix.manifests[0].digest.as_str(), d1);
    assert_eq!(ix.manifests[0].platform.architecture.as_str(), "amd64");
    assert_eq!(ix.manifests[0].platform.os.as_str(), "linux");
    assert_eq!(ix.manifests[1].digest.as_str(), d2);
    assert_eq!(ix.manifests[1].platform.architecture.as_str(), "arm64");
    assert_eq!(ix.manifests[0].media_type.as_str(), "application/vnd.oci.image.manifest.v1+json");
}

#[test]
fn media_types() {
    assert_eq!(manifest_media_type(), "application/vnd.oci.image.manifest.v1+json");
    assert_eq!(index_media_type(), "application/vnd.oci.image.index.v1+json");
}

#[test]
fn index_document_exact_bytes() {
    let ix = assemble(vec![
        entry("sha256:aa", 429, "amd64", None),
        entry("sha256:bb", 430, "arm64", Some("v8")),
    ]);
    let expected = "{\"schemaVersion\":2,\"mediaType\":\"application/vnd.oci.image.index.v1+json\",\
                    \"manifests\":[{\"mediaType\":\"application/vnd.oci.image.manifest.v1+json\",\
                    \"digest\":\"sha256:aa\",\"size\":429,\"platform\":{\"architecture\":\"amd64\",\
                    \"os\":\"linux\"}},{\"mediaType\":\"application/vnd.oci.image.manifest.v1+json\",\
                    \"digest\":\"sha256:bb\",\"size\":430,\"platform\":{\"architecture\":\"arm64\",\
                    \"os\":\"linux\",\"variant\":\"v8\"}}]}";
    assert_eq!(index_to_json(&ix).as_str(), expected);
}

#[test]
fn index_document_matches_reference_serializer() {
    let ix = assemble(vec![
        entry("sha256:aa", 7, "amd64", None),
        entry("sha256:bb", 9, "arm64", Some("v8")),
    ]);
    let out = index_to_json(&ix);
    let v: serde_json::Value = serde_json::from_str(out.as_str()).unwrap();
    assert_eq!(v.get("schemaVersion").unwrap().as_u64(), Some(2));
    assert_eq!(
        v.get("mediaType").unwrap().as_str(),
        Some("application/vnd.oci.image.index.v1+json")
    );
    let manifests = v.get("manifests").unwrap().as_array().unwrap();
    assert_eq!(manifests.len(), 2);
    assert_eq!(manifests[0].get("digest").unwrap().as_str(), Some("sha256:aa"));
    assert_eq!(manifests[0].get("size").unwrap().as_u64(), Some(7));
    assert_eq!(
        manifests[0].get("platform").unwrap().get("architecture").unwrap().as_str(),
        Some("amd64")
    );
    assert!(manifests[0].get("platform").unwrap().get("variant").is_none());
    assert_eq!(
        manifests[1].get("platform").unwrap().get("variant").unwrap().as_str(),
        Some("v8")
    );
}

#[test]
fn empty_index_document() {
    let ix = assemble(Vec::new());
    assert_eq!(
        index_to_json(&ix).as_str(),
        "{\"schemaVersion\":2,\"mediaType\":\"application/vnd.oci.image.index.v1+json\",\"manifests\":[]}"
    );
}

#[test]
fn json_string_escapes() {
    assert_eq!(json_string("plain").as_str(), "\"plain\"");
    assert_eq!(json_string("a\"b").as_str(), "\"a\\\"b\"");
    assert_eq!(json_string("a\\b").as_str(), "\"a\\\\b\"");
    assert_eq!(json_string("a\nb\tc\rd").as_str(), "\"a\\nb\\tc\\rd\"");
    assert_eq!(json_string("\u{8}\u{c}").as_str(), "\"\\b\\f\"");
    assert_eq!(json_string("\u{1}\u{1f}").as_str(), "\"\\u0001\\u001f\"");
    assert_eq!(json_string("héllo").as_str(), "\"héllo\"");
}

#[test]
fn json_string_matches_reference_serializer() {
    for s in ["plain", "a\"b\\c", "line\nbreak", "\u{0}\u{1f}", "héllo wörld", "tab\there"] {
        let reference = serde_json::to_string(&serde_json::Value::String(s.to_string())).unwrap();
        assert_eq!(json_string(s), reference, "escaping of {:?}", s);
    }
}

#[test]
fn entry_document_field_order() {
    let e = entry("sha256:cc", 5, "amd64", None);
    assert_eq!(
        entry_json(&e).as_str(),
        "{\"mediaType\":\"application/vnd.oci.image.manifest.v1+json\",\"digest\":\"sha256:cc\",\"size\":5,\"platform\":{\"architecture\":\"amd64\",\"os\":\"linux\"}}"
    );
}

#[test]
fn decimal_rendering() {
    assert_eq!(u64_to_dec(0).as_str(), "0");
    assert_eq!(u64_to_dec(7).as_str(), "7");
    assert_eq!(u64_to_dec(10).as_str(), "10");
    assert_eq!(u64_to_dec(1234567890).as_str(), "1234567890");
    assert_eq!(u64_to_dec(u64::MAX).as_str(), "18446744073709551615");
}
