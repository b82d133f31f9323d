//! Reading fetched manifests and config blobs: the declared config digest, the
//! platform fields, and the content-integrity check that guards every blob
//! fetched by digest.

use vstd::prelude::*;

use crate::digest::{calc_digest, spec_digest};
use crate::error::PublishError;

verus! {

/// The config digest a manifest document declares, when the bytes are
/// well-formed JSON whose `config.digest` field is a string.
pub uninterp spec fn spec_manifest_config_digest(bytes: Seq<u8>) -> Option<Seq<char>>;

/// Relies on `serde_json::from_slice` to parse the manifest document, and on
/// `serde_json::Value::get` / `Value::as_str` to read its `config.digest`
/// field: the outcome is a function of the bytes alone.
#[verifier::external_body]
fn parse_config_digest(bytes: &[u8]) -> (r: Option<String>)
    ensures
        r.deep_view() == spec_manifest_config_digest(bytes@),
{
    match serde_json::from_slice::<serde_json::Value>(bytes) {
        Ok(v) => v
            .get("config")
            .and_then(|c| c.get("digest"))
            .and_then(|d| d.as_str())
            .map(str::to_owned),
        Err(_) => None,
    }
}

/// The `(architecture, os, variant)` fields of an image config blob, when the
/// bytes are well-formed JSON with string `architecture` and `os` fields and
/// an absent, null or string `variant`.
pub uninterp spec fn spec_config_platform(bytes: Seq<u8>) -> Option<
    (Seq<char>, Seq<char>, Option<Seq<char>>),
>;

/// Relies on `serde_json::from_slice` to parse the config blob, and on
/// `serde_json::Value::get` / `Value::as_str` to read its `architecture`,
/// `os` and optional `variant` fields: the outcome is a function of the bytes
/// alone.
#[verifier::external_body]
fn parse_platform_fields(bytes: &[u8]) -> (r: Option<(String, String, Option<String>)>)
    ensures
        r.deep_view() == spec_config_platform(bytes@),
{
    let v: serde_json::Value = serde_json::from_slice(bytes).ok()?;
    let architecture = v.get("architecture").and_then(|a| a.as_str())?.to_owned();
    let os = v.get("os").and_then(|o| o.as_str())?.to_owned();
    let variant = match v.get("variant") {
        None | Some(serde_json::Value::Null) => None,
        Some(other) => Some(other.as_str()?.to_owned()),
    };
    Some((architecture, os, variant))
}

/// The platform a single-platform manifest's config blob describes.
#[derive(Debug, PartialEq, Eq)]
pub struct Platform {
    pub architecture: String,
    pub os: String,
    pub variant: Option<String>,
}

impl Clone for Platform {
    fn clone(&self) -> (r: Self)
        ensures
            r == *self,
    {
        Platform {
            architecture: self.architecture.clone(),
            os: self.os.clone(),
            variant: self.variant.clone(),
        }
    }
}

/// The mathematical value of a [`Platform`].
pub struct PlatformView {
    pub architecture: Seq<char>,
    pub os: Seq<char>,
    pub variant: Option<Seq<char>>,
}

impl View for Platform {
    type V = PlatformView;

    open spec fn view(&self) -> PlatformView {
        PlatformView {
            architecture: self.architecture@,
            os: self.os@,
            variant: match self.variant {
                Some(v) => Some(v@),
                None => None,
            },
        }
    }
}

impl DeepView for Platform {
    type V = PlatformView;

    open spec fn deep_view(&self) -> PlatformView {
        self.view()
    }
}

/// Reads a fetched manifest: the digest recomputed from its raw bytes (never
/// a value embedded in the document) and the config digest it declares.
/// Fails with a parse error exactly when the declared digest cannot be read.
pub fn manifest_summary(manifest_bytes: &[u8]) -> (r: Result<(String, String), PublishError>)
    ensures
        r is Ok <==> spec_manifest_config_digest(manifest_bytes@) is Some,
        r matches Ok((digest, config_digest)) ==> digest@ == spec_digest(manifest_bytes@)
            && Some(config_digest@) == spec_manifest_config_digest(manifest_bytes@),
        r matches Err(e) ==> (e matches PublishError::Parse { message }
            && message@ == "failed to parse manifest"@),
{
    match parse_config_digest(manifest_bytes) {
        Some(config_digest) => {
            let digest = calc_digest(manifest_bytes);
            Ok((digest, config_digest))
        },
        None => Err(PublishError::Parse { message: "failed to parse manifest".to_owned() }),
    }
}

/// Checks the sole trust boundary for data received from a source registry: a
/// blob fetched by digest is accepted exactly when the digest recomputed from
/// its bytes equals the digest its referencing manifest declared.
pub fn check_blob_integrity(declared: &String, blob: &[u8]) -> (r: Result<(), PublishError>)
    ensures
        r is Ok <==> declared@ == spec_digest(blob@),
        r matches Err(e) ==> (e matches PublishError::DigestMismatch { declared: d, computed }
            && d@ == declared@ && computed@ == spec_digest(blob@)),
{
    let computed = calc_digest(blob);
    if declared.eq(&computed) {
        Ok(())
    } else {
        Err(PublishError::DigestMismatch { declared: declared.clone(), computed })
    }
}

/// Resolves the platform of a verified config blob. Absent architecture or os
/// is an error, not a wildcard.
pub fn resolve_platform(config_bytes: &[u8]) -> (r: Result<Platform, PublishError>)
    ensures
        r is Ok <==> spec_config_platform(config_bytes@) is Some,
        r matches Ok(p) ==> Some((p@.architecture, p@.os, p@.variant))
            == spec_config_platform(config_bytes@),
        r matches Err(e) ==> (e matches PublishError::Parse { message }
            && message@ == "failed to parse image config"@),
{
    match parse_platform_fields(config_bytes) {
        Some((architecture, os, variant)) => Ok(Platform { architecture, os, variant }),
        None => Err(PublishError::Parse { message: "failed to parse image config".to_owned() }),
    }
}

/// Verifies a fetched config blob against the digest its manifest declared,
/// then resolves its platform. The integrity check comes first: a tampered
/// or corrupted blob fails with a digest mismatch, never silently.
pub fn verify_and_resolve_config(declared: &String, config_bytes: &[u8]) -> (r: Result<
    Platform,
    PublishError,
>)
    ensures
        r is Ok <==> declared@ == spec_digest(config_bytes@) && spec_config_platform(
            config_bytes@,
        ) is Some,
        r matches Ok(p) ==> Some((p@.architecture, p@.os, p@.variant))
            == spec_config_platform(config_bytes@),
        declared@ != spec_digest(config_bytes@) ==> (r matches Err(e)
            && (e matches PublishError::DigestMismatch { declared: d, computed }
            && d@ == declared@ && computed@ == spec_digest(config_bytes@))),
        declared@ == spec_digest(config_bytes@) && spec_config_platform(config_bytes@) is None
            ==> (r matches Err(e) && (e matches PublishError::Parse { message }
            && message@ == "failed to parse image config"@)),
{
    check_blob_integrity(declared, config_bytes)?;
    resolve_platform(config_bytes)
}

} // verus!
