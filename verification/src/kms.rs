//! Naming a key under a key management service and the endpoints that
//! encrypt or decrypt with it.

use vstd::prelude::*;

use crate::Scopes;

verus! {

/// The fully qualified name of a key: the project, the location and the
/// keyring holding it, and the key itself.
#[derive(Debug, Clone)]
pub struct KeyInfo {
    pub key: String,
    pub keyring: String,
    pub location: String,
    pub project: String,
}

/// Encrypts the contents of one file into another file.
#[derive(Debug, Clone)]
pub struct Encrypt {
    pub key_info: KeyInfo,
    pub input: String,
    pub output: String,
}

/// Decrypts the contents of one file into another file.
#[derive(Debug, Clone)]
pub struct Decrypt {
    pub key_info: KeyInfo,
    pub input: String,
    pub output: String,
}

/// Performs encryption or decryption.
#[derive(Debug, Clone)]
pub enum Args {
    Encrypt(Encrypt),
    Decrypt(Decrypt),
}

impl Scopes for Args {
    fn scopes(&self) -> &'static [&'static str] {
        &["https://www.googleapis.com/auth/cloudkms"]
    }
}

/// The key's resource prefix under the service endpoint, up to the action.
pub open spec fn spec_key_url(ki: &KeyInfo) -> Seq<char> {
    "https://cloudkms.googleapis.com/v1/projects/"@ + ki.project@ + "/locations/"@ + ki.location@
        + "/keyRings/"@ + ki.keyring@ + "/cryptoKeys/"@ + ki.key@
}

fn key_url(ki: &KeyInfo) -> (r: String)
    ensures
        r@ == spec_key_url(ki),
{
    let mut r: String = "https://cloudkms.googleapis.com/v1/projects/".to_owned();
    r.append(ki.project.as_str());
    r.append("/locations/");
    r.append(ki.location.as_str());
    r.append("/keyRings/");
    r.append(ki.keyring.as_str());
    r.append("/cryptoKeys/");
    r.append(ki.key.as_str());
    r
}

/// The endpoint that encrypts with the key.
pub fn encrypt_url(ki: &KeyInfo) -> (r: String)
    ensures
        r@ == spec_key_url(ki) + ":encrypt"@,
{
    let mut r = key_url(ki);
    r.append(":encrypt");
    r
}

/// The endpoint that decrypts with the key.
pub fn decrypt_url(ki: &KeyInfo) -> (r: String)
    ensures
        r@ == spec_key_url(ki) + ":decrypt"@,
{
    let mut r = key_url(ki);
    r.append(":decrypt");
    r
}

} // verus!
