//! The registry wire protocol, short of the transport itself: endpoint URLs,
//! the reading of an HTTP response into bytes or a structured error, planned
//! digest- and tag-addressed PUTs, and a model of registry storage that the
//! replication and retag laws are stated over.

use vstd::prelude::*;

use crate::error::PublishError;

verus! {

/// The manifest endpoint for a repository, name and tag-or-digest reference.
pub open spec fn spec_manifest_url(
    region: Seq<char>,
    repo: Seq<char>,
    name: Seq<char>,
    reference: Seq<char>,
) -> Seq<char> {
    "https://"@ + region + "-docker.pkg.dev/v2/"@ + repo + "/"@ + name + "/manifests/"@
        + reference
}

/// The blob endpoint for a repository, name and digest.
pub open spec fn spec_blob_url(
    region: Seq<char>,
    repo: Seq<char>,
    name: Seq<char>,
    digest: Seq<char>,
) -> Seq<char> {
    "https://"@ + region + "-docker.pkg.dev/v2/"@ + repo + "/"@ + name + "/blobs/"@ + digest
}

/// Builds the manifest endpoint URL.
pub fn manifest_url(region: &str, repo: &str, name: &str, reference: &str) -> (r: String)
    ensures
        r@ == spec_manifest_url(region@, repo@, name@, reference@),
{
    let mut r: String = "https://".to_owned();
    r.append(region);
    r.append("-docker.pkg.dev/v2/");
    r.append(repo);
    r.append("/");
    r.append(name);
    r.append("/manifests/");
    r.append(reference);
    r
}

/// Builds the blob endpoint URL.
pub fn blob_url(region: &str, repo: &str, name: &str, digest: &str) -> (r: String)
    ensures
        r@ == spec_blob_url(region@, repo@, name@, digest@),
{
    let mut r: String = "https://".to_owned();
    r.append(region);
    r.append("-docker.pkg.dev/v2/");
    r.append(repo);
    r.append("/");
    r.append(name);
    r.append("/blobs/");
    r.append(digest);
    r
}

/// Whether an HTTP status code reports success.
pub open spec fn spec_is_success(status: u16) -> bool {
    200 <= status < 300
}

/// Reads a registry response: on success exactly the received bytes, on a
/// non-success status a registry error carrying the body when it is valid
/// text and nothing otherwise. Never both bytes and an error.
pub fn interpret_response(status: u16, body: Vec<u8>) -> (r: Result<Vec<u8>, PublishError>)
    ensures
        spec_is_success(status) ==> (r matches Ok(b) && b@ == body@),
        !spec_is_success(status) ==> (r matches Err(e) && (e matches PublishError::Registry {
            status: s,
            message,
        } && s == status && (match message {
            Some(m) => vstd::utf8::valid_utf8(body@) && m@ == vstd::utf8::decode_utf8(body@),
            None => !vstd::utf8::valid_utf8(body@),
        }))),
{
    if 200 <= status && status < 300 {
        Ok(body)
    } else {
        let message = crate::text::string_from_utf8(body);
        Err(PublishError::Registry { status, message })
    }
}

/// A planned manifest PUT: the document `body` is to be stored under
/// `(repo, name, reference)` with the given content type. The reference is a
/// digest for replication and a tag for publication.
#[derive(Debug, Clone, PartialEq, Eq)]
pub struct ManifestPut {
    pub repo: String,
    pub name: String,
    pub reference: String,
    pub content_type: String,
    pub body: Vec<u8>,
}

/// The mathematical value of a [`ManifestPut`].
pub struct PutView {
    pub repo: Seq<char>,
    pub name: Seq<char>,
    pub reference: Seq<char>,
    pub content_type: Seq<char>,
    pub body: Seq<u8>,
}

impl View for ManifestPut {
    type V = PutView;

    open spec fn view(&self) -> PutView {
        PutView {
            repo: self.repo@,
            name: self.name@,
            reference: self.reference@,
            content_type: self.content_type@,
            body: self.body@,
        }
    }
}

impl DeepView for ManifestPut {
    type V = PutView;

    open spec fn deep_view(&self) -> PutView {
        self.view()
    }
}

impl ManifestPut {
    /// The manifest endpoint URL this PUT is addressed to.
    pub fn url(&self, region: &str) -> (r: String)
        ensures
            r@ == spec_manifest_url(region@, self@.repo, self@.name, self@.reference),
    {
        manifest_url(region, self.repo.as_str(), self.name.as_str(), self.reference.as_str())
    }
}

/// Registry storage, modelled as a map from a `(repository, name, reference)`
/// coordinate to the stored document bytes and their content type. A PUT
/// stores the document under its coordinate; a fetch of a coordinate yields
/// what is stored there. Registries treat digest-addressed writes as
/// content-defined, which this model reflects: writing the same document to
/// the same coordinate again changes nothing.
pub type StoreModel = Map<(Seq<char>, Seq<char>, Seq<char>), (Seq<u8>, Seq<char>)>;

/// The storage coordinate a planned PUT addresses.
pub open spec fn spec_put_key(p: PutView) -> (Seq<char>, Seq<char>, Seq<char>) {
    (p.repo, p.name, p.reference)
}

/// Registry storage after one PUT.
pub open spec fn spec_apply_put(store: StoreModel, p: PutView) -> StoreModel {
    store.insert(spec_put_key(p), (p.body, p.content_type))
}

/// Registry storage after a sequence of PUTs, applied in order.
pub open spec fn spec_apply_puts(store: StoreModel, puts: Seq<PutView>) -> StoreModel
    decreases puts.len(),
{
    if puts.len() == 0 {
        store
    } else {
        spec_apply_puts(spec_apply_put(store, puts.first()), puts.drop_first())
    }
}

/// Replication is idempotent: re-running the same digest-addressed PUT leaves
/// the registry exactly as the first run left it.
pub proof fn lemma_replication_idempotent(store: StoreModel, p: PutView)
    ensures
        spec_apply_put(spec_apply_put(store, p), p) == spec_apply_put(store, p),
{
    assert(spec_apply_put(spec_apply_put(store, p), p) =~= spec_apply_put(store, p));
}

/// After a sequence of PUTs that all carry the same document, every
/// coordinate one of them addressed holds exactly that document: fetching it
/// back yields the bytes and content type unchanged.
pub proof fn lemma_puts_store_document(
    store: StoreModel,
    puts: Seq<PutView>,
    body: Seq<u8>,
    content_type: Seq<char>,
    key: (Seq<char>, Seq<char>, Seq<char>),
)
    requires
        forall|i: int|
            0 <= i < puts.len() ==> (#[trigger] puts[i]).body == body
                && puts[i].content_type == content_type,
        exists|i: int| 0 <= i < puts.len() && spec_put_key(#[trigger] puts[i]) == key,
    ensures
        spec_apply_puts(store, puts).contains_key(key),
        spec_apply_puts(store, puts)[key] == (body, content_type),
    decreases puts.len(),
{
    let i = choose|i: int| 0 <= i < puts.len() && spec_put_key(#[trigger] puts[i]) == key;
    let store1 = spec_apply_put(store, puts.first());
    assert(puts.first() == puts[0]);
    if i == 0 {
        assert(store1.contains_key(key) && store1[key] == (body, content_type));
        if puts.len() == 1 {
            assert(puts.drop_first().len() == 0);
            assert(spec_apply_puts(store1, puts.drop_first()) == store1);
        } else {
            lemma_puts_keep_document(store1, puts.drop_first(), body, content_type, key);
        }
    } else {
        assert(puts.drop_first()[i - 1] == puts[i]);
        assert(spec_put_key(puts.drop_first()[i - 1]) == key);
        lemma_puts_store_document(store1, puts.drop_first(), body, content_type, key);
    }
}

/// A sequence of PUTs that all carry one document never disturbs a
/// coordinate that already holds that document.
pub proof fn lemma_puts_keep_document(
    store: StoreModel,
    puts: Seq<PutView>,
    body: Seq<u8>,
    content_type: Seq<char>,
    key: (Seq<char>, Seq<char>, Seq<char>),
)
    requires
        forall|i: int|
            0 <= i < puts.len() ==> (#[trigger] puts[i]).body == body
                && puts[i].content_type == content_type,
        store.contains_key(key),
        store[key] == (body, content_type),
    ensures
        spec_apply_puts(store, puts).contains_key(key),
        spec_apply_puts(store, puts)[key] == (body, content_type),
    decreases puts.len(),
{
    if puts.len() > 0 {
        lemma_puts_keep_document(
            spec_apply_put(store, puts.first()),
            puts.drop_first(),
            body,
            content_type,
            key,
        );
    }
}

} // verus!
